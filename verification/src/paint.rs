//! Typed paint primitives and the decoders that build them from structured
//! command payloads.
//!
//! Payload enumerations arrive as small integer discriminants; optional
//! fields arrive as `Option` values.  Each decoder is a pure total function
//! that either produces a typed value or reports the first fault it finds,
//! and its contract states the outcome exactly, for every input.

use vstd::prelude::*;

use crate::scalar::{Point, Scalar};
use crate::status::{DecodeFault, GfxError};

verus! {

/// An unpremultiplied color; premultiplication is the rasterizer's concern.
#[derive(Clone, Copy, Debug, PartialEq, Eq, Structural)]
pub struct Color {
    pub a: u8,
    pub r: u8,
    pub g: u8,
    pub b: u8,
}

impl Color {
    pub fn new(a: u8, r: u8, g: u8, b: u8) -> (c: Color)
        ensures
            c == (Color { a, r, g, b }),
    {
        Color { a, r, g, b }
    }
}

#[derive(Clone, Copy, Debug, PartialEq, Eq, Structural)]
pub enum LineCap {
    Round,
    Butt,
    Square,
}

#[derive(Clone, Copy, Debug, PartialEq, Eq, Structural)]
pub enum LineJoin {
    Round,
    Miter,
    Bevel,
}

/// How a gradient is sampled outside its defined range.
#[derive(Clone, Copy, Debug, PartialEq, Eq, Structural)]
pub enum Spread {
    Pad,
    Reflect,
    Repeat,
}

/// The fixed set of compositing operators.
#[derive(Clone, Copy, Debug, PartialEq, Eq, Structural)]
pub enum Blend {
    Dst,
    Src,
    Clear,
    SrcOver,
    DstOver,
    SrcIn,
    DstIn,
    SrcOut,
    DstOut,
    SrcAtop,
    DstAtop,
    Xor,
    Add,
    Screen,
    Overlay,
    Darken,
    Lighten,
    ColorDodge,
    ColorBurn,
    HardLight,
    SoftLight,
    Difference,
    Exclusion,
    Multiply,
    Hue,
    Saturation,
    Color,
    Luminosity,
}

/// One gradient stop; positions are handed to the rasterizer in producer
/// order, unsorted.
#[derive(Clone, Copy, Debug, PartialEq, Eq, Structural)]
pub struct GradientStop {
    pub position: Scalar,
    pub color: Color,
}

/// The discriminants of the paint payload.
pub const PAINT_TAG_SOLID: u32 = 0;

pub const PAINT_TAG_LINEAR: u32 = 1;

pub const PAINT_TAG_RADIAL: u32 = 2;

pub const PAINT_TAG_TWO_CIRCLE: u32 = 3;

/// The structured paint payload: a discriminant plus the optional fields
/// that the chosen variant is required to populate.
pub struct RawPaint {
    pub tag: u32,
    pub color: Option<Color>,
    pub start: Option<Point>,
    pub end: Option<Point>,
    pub center: Option<Point>,
    pub radius: Option<Scalar>,
    pub center2: Option<Point>,
    pub radius2: Option<Scalar>,
    pub spread: Option<u32>,
    pub stops: Option<Vec<GradientStop>>,
}

/// A decoded paint: the strict tagged form in which no invalid field
/// combination can be expressed.
pub enum Paint {
    Solid(Color),
    LinearGradient { stops: Vec<GradientStop>, start: Point, end: Point, spread: Spread },
    RadialGradient { stops: Vec<GradientStop>, center: Point, radius: Scalar, spread: Spread },
    TwoCircleRadialGradient {
        stops: Vec<GradientStop>,
        center: Point,
        radius: Scalar,
        center2: Point,
        radius2: Scalar,
        spread: Spread,
    },
}

/// The mathematical value of a [`Paint`]: stop lists become sequences.
pub enum PaintV {
    Solid(Color),
    LinearGradient { stops: Seq<GradientStop>, start: Point, end: Point, spread: Spread },
    RadialGradient { stops: Seq<GradientStop>, center: Point, radius: Scalar, spread: Spread },
    TwoCircleRadialGradient {
        stops: Seq<GradientStop>,
        center: Point,
        radius: Scalar,
        center2: Point,
        radius2: Scalar,
        spread: Spread,
    },
}

impl View for Paint {
    type V = PaintV;

    open spec fn view(&self) -> PaintV {
        match *self {
            Paint::Solid(c) => PaintV::Solid(c),
            Paint::LinearGradient { stops, start, end, spread } => PaintV::LinearGradient {
                stops: stops@,
                start,
                end,
                spread,
            },
            Paint::RadialGradient { stops, center, radius, spread } => PaintV::RadialGradient {
                stops: stops@,
                center,
                radius,
                spread,
            },
            Paint::TwoCircleRadialGradient {
                stops,
                center,
                radius,
                center2,
                radius2,
                spread,
            } => PaintV::TwoCircleRadialGradient {
                stops: stops@,
                center,
                radius,
                center2,
                radius2,
                spread,
            },
        }
    }
}

/// The line cap named by a discriminant, if any.
pub open spec fn cap_of_tag(tag: u32) -> Option<LineCap> {
    if tag == 0 {
        Some(LineCap::Round)
    } else if tag == 1 {
        Some(LineCap::Butt)
    } else if tag == 2 {
        Some(LineCap::Square)
    } else {
        None
    }
}

/// The line join named by a discriminant, if any.
pub open spec fn join_of_tag(tag: u32) -> Option<LineJoin> {
    if tag == 0 {
        Some(LineJoin::Round)
    } else if tag == 1 {
        Some(LineJoin::Miter)
    } else if tag == 2 {
        Some(LineJoin::Bevel)
    } else {
        None
    }
}

/// The spread rule named by a discriminant, if any.
pub open spec fn spread_of_tag(tag: u32) -> Option<Spread> {
    if tag == 0 {
        Some(Spread::Pad)
    } else if tag == 1 {
        Some(Spread::Reflect)
    } else if tag == 2 {
        Some(Spread::Repeat)
    } else {
        None
    }
}

/// The blend mode named by a discriminant, if any.
pub open spec fn blend_of_tag(tag: u32) -> Option<Blend> {
    match tag {
        0u32 => Some(Blend::Dst),
        1u32 => Some(Blend::Src),
        2u32 => Some(Blend::Clear),
        3u32 => Some(Blend::SrcOver),
        4u32 => Some(Blend::DstOver),
        5u32 => Some(Blend::SrcIn),
        6u32 => Some(Blend::DstIn),
        7u32 => Some(Blend::SrcOut),
        8u32 => Some(Blend::DstOut),
        9u32 => Some(Blend::SrcAtop),
        10u32 => Some(Blend::DstAtop),
        11u32 => Some(Blend::Xor),
        12u32 => Some(Blend::Add),
        13u32 => Some(Blend::Screen),
        14u32 => Some(Blend::Overlay),
        15u32 => Some(Blend::Darken),
        16u32 => Some(Blend::Lighten),
        17u32 => Some(Blend::ColorDodge),
        18u32 => Some(Blend::ColorBurn),
        19u32 => Some(Blend::HardLight),
        20u32 => Some(Blend::SoftLight),
        21u32 => Some(Blend::Difference),
        22u32 => Some(Blend::Exclusion),
        23u32 => Some(Blend::Multiply),
        24u32 => Some(Blend::Hue),
        25u32 => Some(Blend::Saturation),
        26u32 => Some(Blend::Color),
        27u32 => Some(Blend::Luminosity),
        _ => None,
    }
}

pub fn decode_line_cap(tag: u32) -> (r: Result<LineCap, GfxError>)
    ensures
        match cap_of_tag(tag) {
            Some(c) => r == Ok::<LineCap, GfxError>(c),
            None => r == Err::<LineCap, GfxError>(GfxError::Decode(DecodeFault::UnknownTag)),
        },
{
    match tag {
        0u32 => Ok(LineCap::Round),
        1u32 => Ok(LineCap::Butt),
        2u32 => Ok(LineCap::Square),
        _ => Err(GfxError::Decode(DecodeFault::UnknownTag)),
    }
}

pub fn decode_line_join(tag: u32) -> (r: Result<LineJoin, GfxError>)
    ensures
        match join_of_tag(tag) {
            Some(j) => r == Ok::<LineJoin, GfxError>(j),
            None => r == Err::<LineJoin, GfxError>(GfxError::Decode(DecodeFault::UnknownTag)),
        },
{
    match tag {
        0u32 => Ok(LineJoin::Round),
        1u32 => Ok(LineJoin::Miter),
        2u32 => Ok(LineJoin::Bevel),
        _ => Err(GfxError::Decode(DecodeFault::UnknownTag)),
    }
}

pub fn decode_spread(tag: u32) -> (r: Result<Spread, GfxError>)
    ensures
        match spread_of_tag(tag) {
            Some(s) => r == Ok::<Spread, GfxError>(s),
            None => r == Err::<Spread, GfxError>(GfxError::Decode(DecodeFault::UnknownTag)),
        },
{
    match tag {
        0u32 => Ok(Spread::Pad),
        1u32 => Ok(Spread::Reflect),
        2u32 => Ok(Spread::Repeat),
        _ => Err(GfxError::Decode(DecodeFault::UnknownTag)),
    }
}

pub fn decode_blend_mode(tag: u32) -> (r: Result<Blend, GfxError>)
    ensures
        match blend_of_tag(tag) {
            Some(b) => r == Ok::<Blend, GfxError>(b),
            None => r == Err::<Blend, GfxError>(GfxError::Decode(DecodeFault::UnknownTag)),
        },
{
    match tag {
        0u32 => Ok(Blend::Dst),
        1u32 => Ok(Blend::Src),
        2u32 => Ok(Blend::Clear),
        3u32 => Ok(Blend::SrcOver),
        4u32 => Ok(Blend::DstOver),
        5u32 => Ok(Blend::SrcIn),
        6u32 => Ok(Blend::DstIn),
        7u32 => Ok(Blend::SrcOut),
        8u32 => Ok(Blend::DstOut),
        9u32 => Ok(Blend::SrcAtop),
        10u32 => Ok(Blend::DstAtop),
        11u32 => Ok(Blend::Xor),
        12u32 => Ok(Blend::Add),
        13u32 => Ok(Blend::Screen),
        14u32 => Ok(Blend::Overlay),
        15u32 => Ok(Blend::Darken),
        16u32 => Ok(Blend::Lighten),
        17u32 => Ok(Blend::ColorDodge),
        18u32 => Ok(Blend::ColorBurn),
        19u32 => Ok(Blend::HardLight),
        20u32 => Ok(Blend::SoftLight),
        21u32 => Ok(Blend::Difference),
        22u32 => Ok(Blend::Exclusion),
        23u32 => Ok(Blend::Multiply),
        24u32 => Ok(Blend::Hue),
        25u32 => Ok(Blend::Saturation),
        26u32 => Ok(Blend::Color),
        27u32 => Ok(Blend::Luminosity),
        _ => Err(GfxError::Decode(DecodeFault::UnknownTag)),
    }
}

/// What decoding a paint payload yields: the exact outcome, including which
/// fault is reported first.  Fields are demanded in payload order: the stop
/// list (present and non-empty) before the geometry of the gradient, then
/// the spread rule.  A single-circle radial gradient whose radius squares
/// to zero is refused: the engine inverts a transform whose determinant is
/// that square, and would panic.  (The two-circle variant builds no such
/// inverse and takes any radius.)
pub open spec fn paint_decode(raw: RawPaint) -> Result<PaintV, GfxError> {
    if raw.tag == PAINT_TAG_SOLID {
        match raw.color {
            Some(c) => Ok(PaintV::Solid(c)),
            None => Err(GfxError::Decode(DecodeFault::MissingColor)),
        }
    } else if raw.tag == PAINT_TAG_LINEAR {
        match raw.stops {
            None => Err(GfxError::Decode(DecodeFault::MissingGradient)),
            Some(stops) => if stops@.len() == 0 {
                Err(GfxError::Decode(DecodeFault::EmptyGradient))
            } else {
                match raw.start {
                    None => Err(GfxError::Decode(DecodeFault::MissingStart)),
                    Some(start) => match raw.end {
                        None => Err(GfxError::Decode(DecodeFault::MissingEnd)),
                        Some(end) => match raw.spread {
                            None => Err(GfxError::Decode(DecodeFault::MissingSpread)),
                            Some(sp) => match spread_of_tag(sp) {
                                None => Err(GfxError::Decode(DecodeFault::UnknownTag)),
                                Some(spread) => Ok(
                                    PaintV::LinearGradient { stops: stops@, start, end, spread },
                                ),
                            },
                        },
                    },
                }
            },
        }
    } else if raw.tag == PAINT_TAG_RADIAL {
        match raw.stops {
            None => Err(GfxError::Decode(DecodeFault::MissingGradient)),
            Some(stops) => if stops@.len() == 0 {
                Err(GfxError::Decode(DecodeFault::EmptyGradient))
            } else {
                match raw.center {
                    None => Err(GfxError::Decode(DecodeFault::MissingCenter)),
                    Some(center) => match raw.radius {
                        None => Err(GfxError::Decode(DecodeFault::MissingRadius)),
                        Some(radius) => if radius.square_is_zero() {
                            Err(GfxError::Decode(DecodeFault::DegenerateRadius))
                        } else {
                            match raw.spread {
                                None => Err(GfxError::Decode(DecodeFault::MissingSpread)),
                                Some(sp) => match spread_of_tag(sp) {
                                    None => Err(GfxError::Decode(DecodeFault::UnknownTag)),
                                    Some(spread) => Ok(
                                        PaintV::RadialGradient {
                                            stops: stops@,
                                            center,
                                            radius,
                                            spread,
                                        },
                                    ),
                                },
                            }
                        },
                    },
                }
            },
        }
    } else if raw.tag == PAINT_TAG_TWO_CIRCLE {
        match raw.stops {
            None => Err(GfxError::Decode(DecodeFault::MissingGradient)),
            Some(stops) => if stops@.len() == 0 {
                Err(GfxError::Decode(DecodeFault::EmptyGradient))
            } else {
                match raw.center {
                    None => Err(GfxError::Decode(DecodeFault::MissingCenter)),
                    Some(center) => match raw.radius {
                        None => Err(GfxError::Decode(DecodeFault::MissingRadius)),
                        Some(radius) => match raw.center2 {
                            None => Err(GfxError::Decode(DecodeFault::MissingSecondCenter)),
                            Some(center2) => match raw.radius2 {
                                None => Err(GfxError::Decode(DecodeFault::MissingSecondRadius)),
                                Some(radius2) => match raw.spread {
                                    None => Err(GfxError::Decode(DecodeFault::MissingSpread)),
                                    Some(sp) => match spread_of_tag(sp) {
                                        None => Err(GfxError::Decode(DecodeFault::UnknownTag)),
                                        Some(spread) => Ok(
                                            PaintV::TwoCircleRadialGradient {
                                                stops: stops@,
                                                center,
                                                radius,
                                                center2,
                                                radius2,
                                                spread,
                                            },
                                        ),
                                    },
                                },
                            },
                        },
                    },
                }
            },
        }
    } else {
        Err(GfxError::Decode(DecodeFault::UnknownTag))
    }
}

/// Decodes a paint payload into its strict tagged form.  Succeeds exactly
/// when [`paint_decode`] does, with the same value or fault; in particular
/// every gradient variant with an absent or empty stop list is refused,
/// and so is a single-circle radial radius whose square rounds to zero.
pub fn decode_paint(raw: RawPaint) -> (r: Result<Paint, GfxError>)
    ensures
        match r {
            Ok(p) => paint_decode(raw) == Ok::<PaintV, GfxError>(p@),
            Err(e) => paint_decode(raw) == Err::<PaintV, GfxError>(e),
        },
{
    if raw.tag == PAINT_TAG_SOLID {
        match raw.color {
            Some(c) => Ok(Paint::Solid(c)),
            None => Err(GfxError::Decode(DecodeFault::MissingColor)),
        }
    } else if raw.tag == PAINT_TAG_LINEAR || raw.tag == PAINT_TAG_RADIAL || raw.tag
        == PAINT_TAG_TWO_CIRCLE {
        let stops: Vec<GradientStop> = match raw.stops {
            None => {
                return Err(GfxError::Decode(DecodeFault::MissingGradient));
            },
            Some(stops) => stops,
        };
        if stops.len() == 0 {
            return Err(GfxError::Decode(DecodeFault::EmptyGradient));
        }
        if raw.tag == PAINT_TAG_LINEAR {
            let start = match raw.start {
                None => {
                    return Err(GfxError::Decode(DecodeFault::MissingStart));
                },
                Some(p) => p,
            };
            let end = match raw.end {
                None => {
                    return Err(GfxError::Decode(DecodeFault::MissingEnd));
                },
                Some(p) => p,
            };
            let spread = match decode_spread_field(raw.spread) {
                Ok(s) => s,
                Err(e) => {
                    return Err(e);
                },
            };
            Ok(Paint::LinearGradient { stops, start, end, spread })
        } else {
            let center = match raw.center {
                None => {
                    return Err(GfxError::Decode(DecodeFault::MissingCenter));
                },
                Some(p) => p,
            };
            let radius = match raw.radius {
                None => {
                    return Err(GfxError::Decode(DecodeFault::MissingRadius));
                },
                Some(s) => s,
            };
            if raw.tag == PAINT_TAG_RADIAL {
                if radius.square_zero() {
                    return Err(GfxError::Decode(DecodeFault::DegenerateRadius));
                }
                let spread = match decode_spread_field(raw.spread) {
                    Ok(s) => s,
                    Err(e) => {
                        return Err(e);
                    },
                };
                Ok(Paint::RadialGradient { stops, center, radius, spread })
            } else {
                let center2 = match raw.center2 {
                    None => {
                        return Err(GfxError::Decode(DecodeFault::MissingSecondCenter));
                    },
                    Some(p) => p,
                };
                let radius2 = match raw.radius2 {
                    None => {
                        return Err(GfxError::Decode(DecodeFault::MissingSecondRadius));
                    },
                    Some(s) => s,
                };
                let spread = match decode_spread_field(raw.spread) {
                Ok(s) => s,
                Err(e) => {
                    return Err(e);
                },
            };
                Ok(
                    Paint::TwoCircleRadialGradient {
                        stops,
                        center,
                        radius,
                        center2,
                        radius2,
                        spread,
                    },
                )
            }
        }
    } else {
        Err(GfxError::Decode(DecodeFault::UnknownTag))
    }
}

/// Decodes the optional spread field of a gradient payload.
fn decode_spread_field(field: Option<u32>) -> (r: Result<Spread, GfxError>)
    ensures
        match r {
            Ok(s) => field is Some && spread_of_tag(field->0) == Some(s),
            Err(e) => match field {
                None => e == GfxError::Decode(DecodeFault::MissingSpread),
                Some(sp) => spread_of_tag(sp) is None && e == GfxError::Decode(
                    DecodeFault::UnknownTag,
                ),
            },
        },
{
    match field {
        None => Err(GfxError::Decode(DecodeFault::MissingSpread)),
        Some(sp) => decode_spread(sp),
    }
}

/// A decoded stroke style.
pub struct Stroke {
    pub width: Scalar,
    pub cap: LineCap,
    pub join: LineJoin,
    pub miter_limit: Scalar,
    pub dash_array: Vec<Scalar>,
    pub dash_offset: Scalar,
}

/// The mathematical value of a [`Stroke`].
pub struct StrokeV {
    pub width: Scalar,
    pub cap: LineCap,
    pub join: LineJoin,
    pub miter_limit: Scalar,
    pub dash_array: Seq<Scalar>,
    pub dash_offset: Scalar,
}

impl View for Stroke {
    type V = StrokeV;

    open spec fn view(&self) -> StrokeV {
        StrokeV {
            width: self.width,
            cap: self.cap,
            join: self.join,
            miter_limit: self.miter_limit,
            dash_array: self.dash_array@,
            dash_offset: self.dash_offset,
        }
    }
}

/// The structured stroke-style payload.
pub struct RawStroke {
    pub width: Scalar,
    pub cap: u32,
    pub join: u32,
    pub miter_limit: Scalar,
    pub dash_array: Vec<Scalar>,
    pub dash_offset: Scalar,
}

/// What decoding a stroke-style payload yields.  A negative width, an
/// unknown cap or join discriminant, or a negative dash entry is refused;
/// checks happen in that order and the first negative dash entry decides.
pub open spec fn stroke_decode(raw: RawStroke) -> Result<StrokeV, GfxError> {
    if raw.width.is_negative() {
        Err(GfxError::Decode(DecodeFault::NegativeStrokeWidth))
    } else {
        match cap_of_tag(raw.cap) {
            None => Err(GfxError::Decode(DecodeFault::UnknownTag)),
            Some(cap) => match join_of_tag(raw.join) {
                None => Err(GfxError::Decode(DecodeFault::UnknownTag)),
                Some(join) => if exists|i: int|
                    0 <= i < raw.dash_array@.len() && raw.dash_array@[i].is_negative() {
                    Err(GfxError::Decode(DecodeFault::NegativeDashLength))
                } else {
                    Ok(
                        StrokeV {
                            width: raw.width,
                            cap,
                            join,
                            miter_limit: raw.miter_limit,
                            dash_array: raw.dash_array@,
                            dash_offset: raw.dash_offset,
                        },
                    )
                },
            },
        }
    }
}

/// Decodes a stroke-style payload.  Succeeds exactly when [`stroke_decode`]
/// does, with the same value or fault.  Negative dash entries are refused
/// because the engine's dashing loop does not terminate on every array that
/// mixes signs.
pub fn decode_stroke_style(raw: RawStroke) -> (r: Result<Stroke, GfxError>)
    ensures
        match r {
            Ok(s) => stroke_decode(raw) == Ok::<StrokeV, GfxError>(s@),
            Err(e) => stroke_decode(raw) == Err::<StrokeV, GfxError>(e),
        },
{
    if raw.width.negative() {
        return Err(GfxError::Decode(DecodeFault::NegativeStrokeWidth));
    }
    let cap = match decode_line_cap(raw.cap) {
        Ok(c) => c,
        Err(e) => {
            return Err(e);
        },
    };
    let join = match decode_line_join(raw.join) {
        Ok(j) => j,
        Err(e) => {
            return Err(e);
        },
    };
    let mut i: usize = 0;
    while i < raw.dash_array.len()
        invariant
            i <= raw.dash_array@.len(),
            forall|j: int| 0 <= j < i ==> !raw.dash_array@[j].is_negative(),
            !raw.width.is_negative(),
            cap_of_tag(raw.cap) == Some(cap),
            join_of_tag(raw.join) == Some(join),
        decreases raw.dash_array@.len() - i,
    {
        if raw.dash_array[i].negative() {
            proof {
                assert(exists|j: int|
                    0 <= j < raw.dash_array@.len() && raw.dash_array@[j].is_negative()) by {
                    assert(raw.dash_array@[i as int].is_negative());
                }
            }
            return Err(GfxError::Decode(DecodeFault::NegativeDashLength));
        }
        i = i + 1;
    }
    Ok(
        Stroke {
            width: raw.width,
            cap,
            join,
            miter_limit: raw.miter_limit,
            dash_array: raw.dash_array,
            dash_offset: raw.dash_offset,
        },
    )
}

} // verus!
