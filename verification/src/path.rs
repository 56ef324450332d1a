//! Immutable paths, the builder that accumulates them, and the decoder
//! that reads them out of structured step payloads.
//!
//! A path is an ordered sequence of segments; one with no segments is valid
//! and draws nothing.  There is no implicit initial move: callers are
//! expected to begin with a move step, but the builder appends whatever it
//! is given, in input order.

use vstd::prelude::*;

use crate::scalar::{Point, Scalar};
use crate::status::{DecodeFault, GfxError};

verus! {

/// The discriminants of the path-step payload.
pub const PATH_TAG_MOVE: u32 = 0;

pub const PATH_TAG_QUAD: u32 = 1;

pub const PATH_TAG_CUBIC: u32 = 2;

pub const PATH_TAG_ARC: u32 = 3;

pub const PATH_TAG_RECT: u32 = 4;

pub const PATH_TAG_LINE: u32 = 5;

pub const PATH_TAG_CLOSE: u32 = 6;

/// Four scalars of a step payload: a quadratic step reads them as control
/// point then endpoint; a rectangle step as origin then extent.
#[derive(Clone, Copy, Debug, PartialEq, Eq, Structural)]
pub struct QuadParams {
    pub a: Scalar,
    pub b: Scalar,
    pub c: Scalar,
    pub d: Scalar,
}

/// Six scalars of a cubic step payload: two control points, then the
/// endpoint.
#[derive(Clone, Copy, Debug, PartialEq, Eq, Structural)]
pub struct CubicParams {
    pub ctrl1: Point,
    pub ctrl2: Point,
    pub to: Point,
}

/// Five scalars of an arc step payload: center, radius, start angle and
/// sweep angle, angles in radians.
#[derive(Clone, Copy, Debug, PartialEq, Eq, Structural)]
pub struct ArcParams {
    pub center: Point,
    pub radius: Scalar,
    pub start_angle: Scalar,
    pub sweep_angle: Scalar,
}

/// One structured path-step payload: a discriminant plus the optional
/// parameter block the chosen step is required to populate.
#[derive(Clone, Copy, Debug, PartialEq, Eq, Structural)]
pub struct RawPathStep {
    pub tag: u32,
    pub linear: Option<Point>,
    pub quad: Option<QuadParams>,
    pub cubic: Option<CubicParams>,
    pub arc: Option<ArcParams>,
}

/// One decoded path segment.
#[derive(Clone, Copy, Debug, PartialEq, Eq, Structural)]
pub enum PathSeg {
    MoveTo { to: Point },
    LineTo { to: Point },
    QuadTo { ctrl: Point, to: Point },
    CubicTo { ctrl1: Point, ctrl2: Point, to: Point },
    ArcTo { center: Point, radius: Scalar, start_angle: Scalar, sweep_angle: Scalar },
    RectTo { origin: Point, width: Scalar, height: Scalar },
    Close,
}

/// An immutable decoded path.
pub struct PathData {
    segs: Vec<PathSeg>,
}

impl View for PathData {
    type V = Seq<PathSeg>;

    closed spec fn view(&self) -> Seq<PathSeg> {
        self.segs@
    }
}

impl PathData {
    /// The empty path, which draws nothing.
    pub fn empty() -> (p: PathData)
        ensures
            p@ == Seq::<PathSeg>::empty(),
    {
        PathData { segs: Vec::new() }
    }

    pub fn len(&self) -> (n: usize)
        ensures
            n == self@.len(),
    {
        self.segs.len()
    }

    pub fn seg(&self, i: usize) -> (s: PathSeg)
        requires
            i < self@.len(),
        ensures
            s == self@[i as int],
    {
        self.segs[i]
    }
}

/// Accumulates segments in input order and produces an immutable
/// [`PathData`].
pub struct PathBuilder {
    segs: Vec<PathSeg>,
}

impl View for PathBuilder {
    type V = Seq<PathSeg>;

    closed spec fn view(&self) -> Seq<PathSeg> {
        self.segs@
    }
}

impl PathBuilder {
    pub fn new() -> (b: PathBuilder)
        ensures
            b@ == Seq::<PathSeg>::empty(),
    {
        PathBuilder { segs: Vec::new() }
    }

    pub fn move_to(&mut self, to: Point)
        ensures
            final(self)@ == old(self)@.push(PathSeg::MoveTo { to }),
    {
        self.segs.push(PathSeg::MoveTo { to });
    }

    pub fn line_to(&mut self, to: Point)
        ensures
            final(self)@ == old(self)@.push(PathSeg::LineTo { to }),
    {
        self.segs.push(PathSeg::LineTo { to });
    }

    pub fn quad_to(&mut self, ctrl: Point, to: Point)
        ensures
            final(self)@ == old(self)@.push(PathSeg::QuadTo { ctrl, to }),
    {
        self.segs.push(PathSeg::QuadTo { ctrl, to });
    }

    pub fn cubic_to(&mut self, ctrl1: Point, ctrl2: Point, to: Point)
        ensures
            final(self)@ == old(self)@.push(PathSeg::CubicTo { ctrl1, ctrl2, to }),
    {
        self.segs.push(PathSeg::CubicTo { ctrl1, ctrl2, to });
    }

    pub fn arc(&mut self, center: Point, radius: Scalar, start_angle: Scalar, sweep_angle: Scalar)
        ensures
            final(self)@ == old(self)@.push(
                PathSeg::ArcTo { center, radius, start_angle, sweep_angle },
            ),
    {
        self.segs.push(PathSeg::ArcTo { center, radius, start_angle, sweep_angle });
    }

    pub fn rect(&mut self, origin: Point, width: Scalar, height: Scalar)
        ensures
            final(self)@ == old(self)@.push(PathSeg::RectTo { origin, width, height }),
    {
        self.segs.push(PathSeg::RectTo { origin, width, height });
    }

    pub fn close(&mut self)
        ensures
            final(self)@ == old(self)@.push(PathSeg::Close),
    {
        self.segs.push(PathSeg::Close);
    }

    /// Completes the path; the segments are exactly those appended, in
    /// order.
    pub fn finish(self) -> (p: PathData)
        ensures
            p@ == self@,
    {
        PathData { segs: self.segs }
    }
}

/// Whether both coordinates of a point are moderate in the sense of
/// [`Scalar::is_moderate`].
pub open spec fn point_moderate(p: Point) -> bool {
    p.x.is_moderate() && p.y.is_moderate()
}

/// Whether every scalar a segment carries — coordinates, radius, angles —
/// is moderate.  The engine squares coordinate differences and walks arcs
/// by their sweep, so a non-finite or over-large scalar can make its
/// dashing loop or arc subdivision fail to advance; such segments are
/// refused at decode time.
pub open spec fn seg_moderate(seg: PathSeg) -> bool {
    match seg {
        PathSeg::MoveTo { to } => point_moderate(to),
        PathSeg::LineTo { to } => point_moderate(to),
        PathSeg::QuadTo { ctrl, to } => point_moderate(ctrl) && point_moderate(to),
        PathSeg::CubicTo { ctrl1, ctrl2, to } => point_moderate(ctrl1) && point_moderate(ctrl2)
            && point_moderate(to),
        PathSeg::ArcTo { center, radius, start_angle, sweep_angle } => point_moderate(center)
            && radius.is_moderate() && start_angle.is_moderate() && sweep_angle.is_moderate(),
        PathSeg::RectTo { origin, width, height } => point_moderate(origin) && width.is_moderate()
            && height.is_moderate(),
        PathSeg::Close => true,
    }
}

/// The segment a step payload names, before the coordinate range check:
/// the shape, or the fault of the missing or unrecognized part.
pub open spec fn step_shape(step: RawPathStep) -> Result<PathSeg, GfxError> {
    if step.tag == PATH_TAG_MOVE {
        match step.linear {
            Some(p) => Ok(PathSeg::MoveTo { to: p }),
            None => Err(GfxError::Decode(DecodeFault::MissingPoint)),
        }
    } else if step.tag == PATH_TAG_QUAD {
        match step.quad {
            Some(q) => Ok(
                PathSeg::QuadTo { ctrl: Point { x: q.a, y: q.b }, to: Point { x: q.c, y: q.d } },
            ),
            None => Err(GfxError::Decode(DecodeFault::MissingQuadData)),
        }
    } else if step.tag == PATH_TAG_CUBIC {
        match step.cubic {
            Some(c) => Ok(PathSeg::CubicTo { ctrl1: c.ctrl1, ctrl2: c.ctrl2, to: c.to }),
            None => Err(GfxError::Decode(DecodeFault::MissingCubicData)),
        }
    } else if step.tag == PATH_TAG_ARC {
        match step.arc {
            Some(a) => Ok(
                PathSeg::ArcTo {
                    center: a.center,
                    radius: a.radius,
                    start_angle: a.start_angle,
                    sweep_angle: a.sweep_angle,
                },
            ),
            None => Err(GfxError::Decode(DecodeFault::MissingArcData)),
        }
    } else if step.tag == PATH_TAG_RECT {
        match step.quad {
            Some(q) => Ok(
                PathSeg::RectTo { origin: Point { x: q.a, y: q.b }, width: q.c, height: q.d },
            ),
            None => Err(GfxError::Decode(DecodeFault::MissingQuadData)),
        }
    } else if step.tag == PATH_TAG_LINE {
        match step.linear {
            Some(p) => Ok(PathSeg::LineTo { to: p }),
            None => Err(GfxError::Decode(DecodeFault::MissingPoint)),
        }
    } else if step.tag == PATH_TAG_CLOSE {
        Ok(PathSeg::Close)
    } else {
        Err(GfxError::Decode(DecodeFault::UnknownTag))
    }
}

/// What decoding one step payload yields: the segment, or the fault of
/// the missing or unrecognized part, or the refusal of a scalar outside
/// [`Scalar::is_moderate`].
pub open spec fn step_decode(step: RawPathStep) -> Result<PathSeg, GfxError> {
    match step_shape(step) {
        Err(e) => Err(e),
        Ok(seg) => if seg_moderate(seg) {
            Ok(seg)
        } else {
            Err(GfxError::Decode(DecodeFault::UnboundedCoordinate))
        },
    }
}

/// Whether every scalar a segment carries is moderate, decided at run
/// time.
fn seg_in_range(seg: &PathSeg) -> (r: bool)
    ensures
        r == seg_moderate(*seg),
{
    match seg {
        PathSeg::MoveTo { to } => to.x.moderate() && to.y.moderate(),
        PathSeg::LineTo { to } => to.x.moderate() && to.y.moderate(),
        PathSeg::QuadTo { ctrl, to } => ctrl.x.moderate() && ctrl.y.moderate() && to.x.moderate()
            && to.y.moderate(),
        PathSeg::CubicTo { ctrl1, ctrl2, to } => ctrl1.x.moderate() && ctrl1.y.moderate()
            && ctrl2.x.moderate() && ctrl2.y.moderate() && to.x.moderate() && to.y.moderate(),
        PathSeg::ArcTo { center, radius, start_angle, sweep_angle } => center.x.moderate()
            && center.y.moderate() && radius.moderate() && start_angle.moderate()
            && sweep_angle.moderate(),
        PathSeg::RectTo { origin, width, height } => origin.x.moderate() && origin.y.moderate()
            && width.moderate() && height.moderate(),
        PathSeg::Close => true,
    }
}

/// Decodes one step payload; returns exactly what [`step_decode`] says.
pub fn decode_step(step: RawPathStep) -> (r: Result<PathSeg, GfxError>)
    ensures
        r == step_decode(step),
{
    let seg: PathSeg = if step.tag == PATH_TAG_MOVE {
        match step.linear {
            Some(p) => PathSeg::MoveTo { to: p },
            None => {
                return Err(GfxError::Decode(DecodeFault::MissingPoint));
            },
        }
    } else if step.tag == PATH_TAG_QUAD {
        match step.quad {
            Some(q) => PathSeg::QuadTo {
                ctrl: Point { x: q.a, y: q.b },
                to: Point { x: q.c, y: q.d },
            },
            None => {
                return Err(GfxError::Decode(DecodeFault::MissingQuadData));
            },
        }
    } else if step.tag == PATH_TAG_CUBIC {
        match step.cubic {
            Some(c) => PathSeg::CubicTo { ctrl1: c.ctrl1, ctrl2: c.ctrl2, to: c.to },
            None => {
                return Err(GfxError::Decode(DecodeFault::MissingCubicData));
            },
        }
    } else if step.tag == PATH_TAG_ARC {
        match step.arc {
            Some(a) => PathSeg::ArcTo {
                center: a.center,
                radius: a.radius,
                start_angle: a.start_angle,
                sweep_angle: a.sweep_angle,
            },
            None => {
                return Err(GfxError::Decode(DecodeFault::MissingArcData));
            },
        }
    } else if step.tag == PATH_TAG_RECT {
        match step.quad {
            Some(q) => PathSeg::RectTo { origin: Point { x: q.a, y: q.b }, width: q.c, height: q.d },
            None => {
                return Err(GfxError::Decode(DecodeFault::MissingQuadData));
            },
        }
    } else if step.tag == PATH_TAG_LINE {
        match step.linear {
            Some(p) => PathSeg::LineTo { to: p },
            None => {
                return Err(GfxError::Decode(DecodeFault::MissingPoint));
            },
        }
    } else if step.tag == PATH_TAG_CLOSE {
        PathSeg::Close
    } else {
        return Err(GfxError::Decode(DecodeFault::UnknownTag));
    };
    if seg_in_range(&seg) {
        Ok(seg)
    } else {
        Err(GfxError::Decode(DecodeFault::UnboundedCoordinate))
    }
}

/// What decoding a whole step sequence yields: the segments in order, or
/// the fault of the earliest failing step.
pub open spec fn steps_decode(steps: Seq<RawPathStep>) -> Result<Seq<PathSeg>, GfxError>
    decreases steps.len(),
{
    if steps.len() == 0 {
        Ok(Seq::<PathSeg>::empty())
    } else {
        match steps_decode(steps.drop_last()) {
            Err(e) => Err(e),
            Ok(pre) => match step_decode(steps.last()) {
                Err(e) => Err(e),
                Ok(s) => Ok(pre.push(s)),
            },
        }
    }
}

/// Unfolds [`steps_decode`] one prefix step at a time.
proof fn lemma_steps_decode_step(s: Seq<RawPathStep>, i: int)
    requires
        0 <= i < s.len(),
    ensures
        steps_decode(s.take(i + 1)) == (match steps_decode(s.take(i)) {
            Err(e) => Err::<Seq<PathSeg>, GfxError>(e),
            Ok(pre) => match step_decode(s[i]) {
                Err(e) => Err::<Seq<PathSeg>, GfxError>(e),
                Ok(sg) => Ok::<Seq<PathSeg>, GfxError>(pre.push(sg)),
            },
        }),
{
    let t = s.take(i + 1);
    assert(t.drop_last() =~= s.take(i));
    assert(t.last() == s[i]);
}

/// A failing prefix decides the whole sequence: once some prefix fails,
/// the full sequence fails with the same fault.
proof fn lemma_steps_decode_extend_err(s: Seq<RawPathStep>, n: int)
    requires
        0 <= n <= s.len(),
        steps_decode(s.take(n)) is Err,
    ensures
        steps_decode(s) == steps_decode(s.take(n)),
    decreases s.len(),
{
    if n == s.len() {
        assert(s.take(n) =~= s);
    } else {
        assert(s.drop_last().take(n) =~= s.take(n));
        lemma_steps_decode_extend_err(s.drop_last(), n);
    }
}

/// Decodes a step-payload sequence into an immutable path.  Succeeds
/// exactly when [`steps_decode`] does, yielding the same segments in the
/// same order, and otherwise reports the fault of the earliest failing
/// step.
pub fn decode_path(steps: &Vec<RawPathStep>) -> (r: Result<PathData, GfxError>)
    ensures
        match r {
            Ok(p) => steps_decode(steps@) == Ok::<Seq<PathSeg>, GfxError>(p@),
            Err(e) => steps_decode(steps@) == Err::<Seq<PathSeg>, GfxError>(e),
        },
{
    let mut segs: Vec<PathSeg> = Vec::new();
    let mut i: usize = 0;
    while i < steps.len()
        invariant
            i <= steps@.len(),
            steps_decode(steps@.take(i as int)) == Ok::<Seq<PathSeg>, GfxError>(segs@),
        decreases steps@.len() - i,
    {
        proof {
            lemma_steps_decode_step(steps@, i as int);
        }
        match decode_step(steps[i]) {
            Ok(seg) => segs.push(seg),
            Err(e) => {
                proof {
                    lemma_steps_decode_extend_err(steps@, i as int + 1);
                }
                return Err(e);
            },
        }
        i = i + 1;
    }
    proof {
        assert(steps@.take(i as int) =~= steps@);
    }
    Ok(PathData { segs })
}

} // verus!
