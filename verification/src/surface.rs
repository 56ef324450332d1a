//! One live drawing surface: its pixel buffer (owned by the engine,
//! opaque here), its current transform command, and its clip and layer
//! stacks.
//!
//! The clip and layer stacks are modeled exactly: push and pop are the
//! only mutators, and popping an empty stack is a reported error that
//! changes nothing.  The surface also recomputes, from its modeled clip
//! stack, the device-space bounds the engine would use when allocating a
//! layer, and refuses a layer push whose bounds are degenerate: the
//! engine's own allocation arithmetic is not total there.

use vstd::prelude::*;

use crate::paint::{Blend, Color};
use crate::path::{PathData, PathSeg};
use crate::raster::{
    dt_clear, dt_draw_image_at, dt_draw_image_with_size_at, dt_fill, dt_fill_rect, dt_new,
    dt_pop_clip, dt_push_clip, dt_push_clip_rect, dt_set_transform, dt_stroke,
};
use crate::scalar::Scalar;
use crate::status::GfxError;
use crate::transform::TransformCmd;

verus! {

/// A clip entry as the caller pushed it: a device-space rectangle given by
/// two corners, or an arbitrary path.
pub enum Clip {
    Rect { x1: i32, y1: i32, x2: i32, y2: i32 },
    Shape(PathData),
}

/// The mathematical value of a [`Clip`].
pub enum ClipV {
    Rect { x1: i32, y1: i32, x2: i32, y2: i32 },
    Shape(Seq<PathSeg>),
}

impl View for Clip {
    type V = ClipV;

    open spec fn view(&self) -> ClipV {
        match *self {
            Clip::Rect { x1, y1, x2, y2 } => ClipV::Rect { x1, y1, x2, y2 },
            Clip::Shape(p) => ClipV::Shape(p@),
        }
    }
}

/// A layer entry: the opacity it was pushed with and the blend mode its
/// contents will be composited back with.
#[derive(Clone, Copy, Debug, PartialEq, Eq, Structural)]
pub struct Layer {
    pub opacity: Scalar,
    pub blend: Blend,
}

/// A device-space rectangle given by two corners, mirroring the engine's
/// clip-bounds representation.
#[derive(Clone, Copy, Debug, PartialEq, Eq, Structural)]
pub struct Bounds {
    pub x1: i32,
    pub y1: i32,
    pub x2: i32,
    pub y2: i32,
}

/// The whole surface area: the bounds the engine uses while no clip is
/// pushed.
pub open spec fn full_bounds(width: i32, height: i32) -> Bounds {
    Bounds { x1: 0, y1: 0, x2: width, y2: height }
}

/// Component-wise intersection of two corner rectangles, exactly as the
/// engine computes it: maxima of the lower corners, minima of the upper.
/// Disjoint inputs yield an inverted (negative-extent) result.
pub open spec fn bounds_intersect(a: Bounds, b: Bounds) -> Bounds {
    Bounds {
        x1: if a.x1 >= b.x1 {
            a.x1
        } else {
            b.x1
        },
        y1: if a.y1 >= b.y1 {
            a.y1
        } else {
            b.y1
        },
        x2: if a.x2 <= b.x2 {
            a.x2
        } else {
            b.x2
        },
        y2: if a.y2 <= b.y2 {
            a.y2
        } else {
            b.y2
        },
    }
}

/// The engine's effective clip bounds after the given clip stack, pushed
/// in order onto a surface of the given size.  The first pushed rectangle
/// stands as given — the engine does not intersect it with the surface
/// area — and each later rectangle is intersected with the bounds before
/// it; a path clip masks pixels but leaves the bounds unchanged.
pub open spec fn clip_bounds_seq(width: i32, height: i32, clips: Seq<ClipV>) -> Bounds
    decreases clips.len(),
{
    if clips.len() == 0 {
        full_bounds(width, height)
    } else {
        let prev = clip_bounds_seq(width, height, clips.drop_last());
        match clips.last() {
            ClipV::Rect { x1, y1, x2, y2 } => if clips.len() == 1 {
                Bounds { x1, y1, x2, y2 }
            } else {
                bounds_intersect(prev, Bounds { x1, y1, x2, y2 })
            },
            ClipV::Shape(_) => prev,
        }
    }
}

/// Whether the engine can allocate a layer under these clip bounds: both
/// extents non-negative and, like their product, within `i32` — the
/// subtractions and the multiplication its allocation performs.
pub open spec fn layer_bounds_ok(b: Bounds) -> bool {
    &&& b.x1 <= b.x2
    &&& b.y1 <= b.y2
    &&& b.x2 - b.x1 <= i32::MAX
    &&& b.y2 - b.y1 <= i32::MAX
    &&& (b.x2 - b.x1) * (b.y2 - b.y1) <= i32::MAX
}

/// Whether an image buffer of this length matches the claimed dimensions.
/// The engine's sampling indexes the buffer by `y * width + x` and clamps
/// coordinates to `width - 1` and `height - 1`, so the dimensions must be
/// strictly positive as well as consistent with the buffer's length.
pub open spec fn image_ok(width: i32, height: i32, len: nat) -> bool {
    &&& 0 < width
    &&& 0 < height
    &&& len == width * height
}

/// Dimensions a surface can be created with: positive, with the pixel
/// count and the rasterizer's four-samples-per-scanline products all
/// within `i32`.
pub open spec fn dims_ok(width: i32, height: i32) -> bool {
    &&& 0 < width
    &&& 0 < height
    &&& width * height <= i32::MAX
    &&& 4 * width <= i32::MAX
    &&& 4 * height <= i32::MAX
}

/// The mathematical value of a [`Surface`]: everything but the pixels,
/// which stay with the engine.
pub struct SurfaceV {
    pub width: i32,
    pub height: i32,
    pub transform: TransformCmd,
    pub clips: Seq<ClipV>,
    pub layers: Seq<Layer>,
}

/// The clip stack's mathematical value.
pub open spec fn clip_views(clips: Seq<Clip>) -> Seq<ClipV> {
    clips.map_values(|c: Clip| c@)
}

/// One live drawing surface.
pub struct Surface {
    width: i32,
    height: i32,
    dt: raqote::DrawTarget,
    transform: TransformCmd,
    clips: Vec<Clip>,
    layers: Vec<Layer>,
}

impl View for Surface {
    type V = SurfaceV;

    closed spec fn view(&self) -> SurfaceV {
        SurfaceV {
            width: self.width,
            height: self.height,
            transform: self.transform,
            clips: clip_views(self.clips@),
            layers: self.layers@,
        }
    }
}

// The engine calls below read or depend on state this crate mirrors —
// the pixel buffer's creation dimensions, the layer stack's depth, the
// effective clip bounds — so their contracts are stated over the
// surface's model and they live here, beside the fields they speak of.
// Each is believed, not proved; the doc comment names the engine source
// relied on and the mirror that makes the claim true of every reachable
// `Surface` (the target is created by `Surface::new` with the surface's
// own dimensions and never replaced, and every stack push or pop pairs
// the model with the engine).

/// Relies on `raqote::DrawTarget::get_data_u8`: the pixel buffer as
/// bytes, exactly four per pixel of the `width * height` buffer the
/// target was created with — this surface's own dimensions.
#[verifier::external_body]
fn dt_pixels(s: &Surface) -> (r: Vec<u8>)
    ensures
        r@.len() == 4 * s@.width * s@.height,
{
    s.dt.get_data_u8().to_vec()
}

/// Relies on `raqote::DrawTarget::push_layer`; the opacity rides in the
/// point's x coordinate.  The engine sizes the layer buffer from its
/// current clip bounds, which this surface mirrors exactly
/// ([`clip_bounds_seq`]); the precondition keeps that allocation's
/// subtractions and product inside `i32`.  Only pixels change; the
/// modeled state does not.
#[verifier::external_body]
fn dt_push_layer(s: &mut Surface, opacity: raqote::Point)
    requires
        layer_bounds_ok(clip_bounds_seq(old(s)@.width, old(s)@.height, old(s)@.clips)),
    ensures
        final(s)@ == old(s)@,
{
    s.dt.push_layer(opacity.x);
}

/// Relies on `raqote::DrawTarget::push_layer_with_blend`; the opacity
/// rides in the point's x coordinate.  Same bounds precondition as
/// [`dt_push_layer`].
#[verifier::external_body]
fn dt_push_layer_with_blend(s: &mut Surface, opacity: raqote::Point, blend: raqote::BlendMode)
    requires
        layer_bounds_ok(clip_bounds_seq(old(s)@.width, old(s)@.height, old(s)@.clips)),
    ensures
        final(s)@ == old(s)@,
{
    s.dt.push_layer_with_blend(opacity.x, blend);
}

/// Relies on `raqote::DrawTarget::pop_layer`, which unwraps the popped
/// entry and panics on an empty stack.  The engine's layer stack holds
/// exactly as many entries as the model, so the precondition over the
/// model excludes the empty engine stack.  Composites pixels only; the
/// modeled state does not change.
#[verifier::external_body]
fn dt_pop_layer(s: &mut Surface)
    requires
        old(s)@.layers.len() > 0,
    ensures
        final(s)@ == old(s)@,
{
    s.dt.pop_layer();
}

impl Surface {
    /// Allocates a fresh surface: zeroed pixels, identity transform, empty
    /// clip and layer stacks.
    pub(crate) fn new(width: i32, height: i32) -> (s: Surface)
        requires
            dims_ok(width, height),
        ensures
            s@ == (SurfaceV {
                width,
                height,
                transform: TransformCmd::Identity,
                clips: Seq::<ClipV>::empty(),
                layers: Seq::<Layer>::empty(),
            }),
    {
        let s = Surface {
            width,
            height,
            dt: dt_new(width, height),
            transform: TransformCmd::Identity,
            clips: Vec::new(),
            layers: Vec::new(),
        };
        proof {
            assert(clip_views(s.clips@) =~= Seq::<ClipV>::empty());
        }
        s
    }

    pub fn get_width(&self) -> (w: i32)
        ensures
            w == self@.width,
    {
        self.width
    }

    pub fn get_height(&self) -> (h: i32)
        ensures
            h == self@.height,
    {
        self.height
    }

    /// The pixel buffer as bytes, straight from the engine: four bytes
    /// per pixel of the surface's `width * height` buffer.  The bytes'
    /// values are the rasterizer's and are not modeled.
    pub fn pixels(&self) -> (r: Vec<u8>)
        ensures
            r@.len() == 4 * self@.width * self@.height,
    {
        dt_pixels(self)
    }

    /// Fills the current clip with a solid color.  Pixels change; the
    /// modeled state does not.
    pub fn clear(&mut self, color: Color)
        ensures
            final(self)@ == old(self)@,
    {
        dt_clear(&mut self.dt, color.a, color.r, color.g, color.b);
    }

    /// Fills a path interior with a source, under the engine's current
    /// transform and clip.  `engine_path` and `engine_source` are the
    /// engine-level values the caller built for the same primitives;
    /// `engine_source` must realize a decoded paint (in particular a
    /// gradient source carries at least one stop), which this crate
    /// cannot check of the opaque value — see [`crate::raster::dt_fill`].
    pub fn fill(&mut self, engine_path: &raqote::Path, engine_source: &raqote::Source)
        ensures
            final(self)@ == old(self)@,
    {
        dt_fill(&mut self.dt, engine_path, engine_source);
    }

    /// Fills an axis-aligned rectangle; origin and extent ride in the two
    /// engine points, which are expected to stay well inside the `i32`
    /// range, and `engine_source` must realize a decoded paint — see
    /// [`crate::raster::dt_fill_rect`].
    pub fn fill_rect(
        &mut self,
        engine_origin: raqote::Point,
        engine_size: raqote::Point,
        engine_source: &raqote::Source,
    )
        ensures
            final(self)@ == old(self)@,
    {
        dt_fill_rect(&mut self.dt, engine_origin, engine_size, engine_source);
    }

    /// Strokes a path outline.  The style must realize a decoded stroke
    /// model — the decoder refuses the negative dash entries that make
    /// the engine's dashing loop mix signs and diverge — and the source a
    /// decoded paint; path coordinates are expected to stay finite.  This
    /// crate cannot check either of the opaque values — see
    /// [`crate::raster::dt_stroke`].
    pub fn stroke(
        &mut self,
        engine_path: &raqote::Path,
        engine_source: &raqote::Source,
        engine_style: &raqote::StrokeStyle,
    )
        ensures
            final(self)@ == old(self)@,
    {
        dt_stroke(&mut self.dt, engine_path, engine_source, engine_style);
    }

    /// Composites a decoded image at a position.  The buffer must hold
    /// exactly `width * height` pixels; a mismatch is refused before the
    /// engine sees it.
    pub fn draw_image_at(
        &mut self,
        engine_pos: raqote::Point,
        width: i32,
        height: i32,
        data: &Vec<u32>,
    ) -> (r: Result<(), GfxError>)
        ensures
            final(self)@ == old(self)@,
            r == if image_ok(width, height, data@.len()) {
                Ok::<(), GfxError>(())
            } else {
                Err::<(), GfxError>(GfxError::InvalidArgument)
            },
    {
        if width <= 0 || height <= 0 {
            return Err(GfxError::InvalidArgument);
        }
        proof {
            assert((width as u64) * (height as u64) <= 0x4000_0000_0000_0000u64)
                by (nonlinear_arith)
                requires
                    0 <= width <= 0x7fff_ffffi32,
                    0 <= height <= 0x7fff_ffffi32,
            ;
        }
        let expected: u64 = (width as u64) * (height as u64);
        if (data.len() as u64) != expected {
            return Err(GfxError::InvalidArgument);
        }
        dt_draw_image_at(&mut self.dt, engine_pos, width, height, data);
        Ok(())
    }

    /// Composites a decoded image resampled to the extent riding in
    /// `engine_size`; same buffer check as [`Surface::draw_image_at`].
    pub fn draw_image_with_size_at(
        &mut self,
        engine_size: raqote::Point,
        engine_pos: raqote::Point,
        width: i32,
        height: i32,
        data: &Vec<u32>,
    ) -> (r: Result<(), GfxError>)
        ensures
            final(self)@ == old(self)@,
            r == if image_ok(width, height, data@.len()) {
                Ok::<(), GfxError>(())
            } else {
                Err::<(), GfxError>(GfxError::InvalidArgument)
            },
    {
        if width <= 0 || height <= 0 {
            return Err(GfxError::InvalidArgument);
        }
        proof {
            assert((width as u64) * (height as u64) <= 0x4000_0000_0000_0000u64)
                by (nonlinear_arith)
                requires
                    0 <= width <= 0x7fff_ffffi32,
                    0 <= height <= 0x7fff_ffffi32,
            ;
        }
        let expected: u64 = (width as u64) * (height as u64);
        if (data.len() as u64) != expected {
            return Err(GfxError::InvalidArgument);
        }
        dt_draw_image_with_size_at(&mut self.dt, engine_size, engine_pos, width, height, data);
        Ok(())
    }

    /// Replaces the current transform with a decoded command;
    /// `engine_transform` is the matrix the caller built from the same
    /// command.
    pub fn set_transform(&mut self, cmd: TransformCmd, engine_transform: &raqote::Transform)
        ensures
            final(self)@ == (SurfaceV { transform: cmd, ..old(self)@ }),
    {
        self.transform = cmd;
        dt_set_transform(&mut self.dt, engine_transform);
    }

    /// Pushes a rectangle clip, intersecting the accumulated clip region.
    pub fn push_clip_rect(&mut self, x1: i32, y1: i32, x2: i32, y2: i32)
        ensures
            final(self)@ == (SurfaceV {
                clips: old(self)@.clips.push(ClipV::Rect { x1, y1, x2, y2 }),
                ..old(self)@
            }),
    {
        self.clips.push(Clip::Rect { x1, y1, x2, y2 });
        dt_push_clip_rect(&mut self.dt, x1, y1, x2, y2);
        proof {
            assert(clip_views(self.clips@) =~= clip_views(old(self).clips@).push(
                ClipV::Rect { x1, y1, x2, y2 },
            ));
        }
    }

    /// Pushes a path clip, masking the accumulated clip region;
    /// `engine_path` realizes the same path.
    pub fn push_clip(&mut self, shape: PathData, engine_path: &raqote::Path)
        ensures
            final(self)@ == (SurfaceV {
                clips: old(self)@.clips.push(ClipV::Shape(shape@)),
                ..old(self)@
            }),
    {
        let ghost shape_view = shape@;
        self.clips.push(Clip::Shape(shape));
        dt_push_clip(&mut self.dt, engine_path);
        proof {
            assert(clip_views(self.clips@) =~= clip_views(old(self).clips@).push(
                ClipV::Shape(shape_view),
            ));
        }
    }

    /// Removes the most recently pushed clip; an empty clip stack is a
    /// reported error and changes nothing, on the pixels too.
    pub fn pop_clip(&mut self) -> (r: Result<(), GfxError>)
        ensures
            old(self)@.clips.len() == 0 ==> r == Err::<(), GfxError>(GfxError::InvalidArgument)
                && final(self)@ == old(self)@,
            old(self)@.clips.len() > 0 ==> r == Ok::<(), GfxError>(()) && final(self)@ == (SurfaceV {
                clips: old(self)@.clips.drop_last(),
                ..old(self)@
            }),
    {
        if self.clips.len() == 0 {
            return Err(GfxError::InvalidArgument);
        }
        self.clips.pop();
        dt_pop_clip(&mut self.dt);
        proof {
            assert(clip_views(self.clips@) =~= clip_views(old(self).clips@).drop_last());
        }
        Ok(())
    }

    /// The effective clip bounds the engine would use now, recomputed from
    /// the modeled clip stack.
    fn current_bounds(&self) -> (b: Bounds)
        ensures
            b == clip_bounds_seq(self@.width, self@.height, self@.clips),
    {
        let mut b = Bounds { x1: 0, y1: 0, x2: self.width, y2: self.height };
        let mut i: usize = 0;
        while i < self.clips.len()
            invariant
                i <= self.clips@.len(),
                b == clip_bounds_seq(self@.width, self@.height, self@.clips.take(i as int)),
                self@.clips == clip_views(self.clips@),
                self@.width == self.width,
                self@.height == self.height,
            decreases self.clips@.len() - i,
        {
            proof {
                assert(self@.clips.take(i as int + 1).drop_last() =~= self@.clips.take(i as int));
                assert(self@.clips.take(i as int + 1).last() == self.clips@[i as int]@);
            }
            match &self.clips[i] {
                Clip::Rect { x1, y1, x2, y2 } => {
                    if i == 0 {
                        b = Bounds { x1: *x1, y1: *y1, x2: *x2, y2: *y2 };
                    } else {
                        b = Bounds {
                            x1: if b.x1 >= *x1 {
                                b.x1
                            } else {
                                *x1
                            },
                            y1: if b.y1 >= *y1 {
                                b.y1
                            } else {
                                *y1
                            },
                            x2: if b.x2 <= *x2 {
                                b.x2
                            } else {
                                *x2
                            },
                            y2: if b.y2 <= *y2 {
                                b.y2
                            } else {
                                *y2
                            },
                        };
                    }
                },
                Clip::Shape(_) => {},
            }
            i = i + 1;
        }
        proof {
            assert(self@.clips.take(i as int) =~= self@.clips);
        }
        b
    }

    /// Begins an isolated compositing group with the default source-over
    /// blend; the opacity rides in `engine_opacity`'s x coordinate.
    pub fn push_layer(&mut self, opacity: Scalar, engine_opacity: raqote::Point) -> (r: Result<
        (),
        GfxError,
    >)
        ensures
            layer_bounds_ok(
                clip_bounds_seq(old(self)@.width, old(self)@.height, old(self)@.clips),
            ) ==> r == Ok::<(), GfxError>(()) && final(self)@ == (SurfaceV {
                layers: old(self)@.layers.push(Layer { opacity, blend: Blend::SrcOver }),
                ..old(self)@
            }),
            !layer_bounds_ok(
                clip_bounds_seq(old(self)@.width, old(self)@.height, old(self)@.clips),
            ) ==> r == Err::<(), GfxError>(GfxError::InvalidArgument) && final(self)@ == old(
                self,
            )@,
    {
        let b = self.current_bounds();
        if !layer_push_allowed(b) {
            return Err(GfxError::InvalidArgument);
        }
        dt_push_layer(self, engine_opacity);
        self.layers.push(Layer { opacity, blend: Blend::SrcOver });
        Ok(())
    }

    /// Begins an isolated compositing group with an explicit blend mode;
    /// `engine_blend` realizes the same mode.
    pub fn push_layer_with_blend(
        &mut self,
        opacity: Scalar,
        blend: Blend,
        engine_opacity: raqote::Point,
        engine_blend: raqote::BlendMode,
    ) -> (r: Result<(), GfxError>)
        ensures
            layer_bounds_ok(
                clip_bounds_seq(old(self)@.width, old(self)@.height, old(self)@.clips),
            ) ==> r == Ok::<(), GfxError>(()) && final(self)@ == (SurfaceV {
                layers: old(self)@.layers.push(Layer { opacity, blend }),
                ..old(self)@
            }),
            !layer_bounds_ok(
                clip_bounds_seq(old(self)@.width, old(self)@.height, old(self)@.clips),
            ) ==> r == Err::<(), GfxError>(GfxError::InvalidArgument) && final(self)@ == old(
                self,
            )@,
    {
        let b = self.current_bounds();
        if !layer_push_allowed(b) {
            return Err(GfxError::InvalidArgument);
        }
        dt_push_layer_with_blend(self, engine_opacity, engine_blend);
        self.layers.push(Layer { opacity, blend });
        Ok(())
    }

    /// Composites the most recently pushed layer back; an empty layer
    /// stack is a reported error and changes nothing, on the pixels too.
    pub fn pop_layer(&mut self) -> (r: Result<(), GfxError>)
        ensures
            old(self)@.layers.len() == 0 ==> r == Err::<(), GfxError>(GfxError::InvalidArgument)
                && final(self)@ == old(self)@,
            old(self)@.layers.len() > 0 ==> r == Ok::<(), GfxError>(()) && final(self)@
                == (SurfaceV { layers: old(self)@.layers.drop_last(), ..old(self)@ }),
    {
        if self.layers.len() == 0 {
            return Err(GfxError::InvalidArgument);
        }
        dt_pop_layer(self);
        self.layers.pop();
        Ok(())
    }
}

/// Whether the effective clip bounds admit a layer push, decided on the
/// same arithmetic [`layer_bounds_ok`] states, carried out in 64 bits.
fn layer_push_allowed(b: Bounds) -> (ok: bool)
    ensures
        ok == layer_bounds_ok(b),
{
    let dw: i64 = (b.x2 as i64) - (b.x1 as i64);
    let dh: i64 = (b.y2 as i64) - (b.y1 as i64);
    if dw < 0 || dh < 0 || dw > (i32::MAX as i64) || dh > (i32::MAX as i64) {
        false
    } else {
        proof {
            assert(dw * dh <= 0x4000_0000_0000_0000i64) by (nonlinear_arith)
                requires
                    0 <= dw <= 0x7fff_ffffi64,
                    0 <= dh <= 0x7fff_ffffi64,
            ;
        }
        dw * dh <= (i32::MAX as i64)
    }
}

} // verus!
