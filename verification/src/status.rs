//! Result taxonomy of the boundary operations.

use vstd::prelude::*;

verus! {

/// Why a structured payload failed to decode: the field that was missing,
/// of the wrong shape, or semantically invalid.
#[derive(Clone, Copy, Debug, PartialEq, Eq, Structural)]
pub enum DecodeFault {
    /// A discriminant value outside the enumerated range.
    UnknownTag,
    /// A solid paint without its color.
    MissingColor,
    /// A linear gradient without its start point.
    MissingStart,
    /// A linear gradient without its end point.
    MissingEnd,
    /// A radial gradient without its center.
    MissingCenter,
    /// A radial gradient without its radius.
    MissingRadius,
    /// A two-circle radial gradient without its second center.
    MissingSecondCenter,
    /// A two-circle radial gradient without its second radius.
    MissingSecondRadius,
    /// A gradient paint without its spread rule.
    MissingSpread,
    /// A gradient paint without its stop list.
    MissingGradient,
    /// A path step without the point it needs.
    MissingPoint,
    /// A quadratic or rectangle step without its four scalars.
    MissingQuadData,
    /// A cubic step without its six scalars.
    MissingCubicData,
    /// An arc step without its parameters.
    MissingArcData,
    /// A gradient with an empty stop list.
    EmptyGradient,
    /// A path coordinate, radius or angle that is not finite or is too
    /// large in magnitude for the engine's length arithmetic.
    UnboundedCoordinate,
    /// A radial gradient radius whose single-precision square rounds to
    /// zero: the engine could not invert its gradient transform.
    DegenerateRadius,
    /// A stroke width with a negative value.
    NegativeStrokeWidth,
    /// A dash array entry with a negative value.
    NegativeDashLength,
}

/// Status of a boundary operation.
#[derive(Clone, Copy, Debug, PartialEq, Eq, Structural)]
pub enum GfxError {
    /// The addressed surface id is not live.
    NotFound,
    /// A surface with the given id is already live.
    AlreadyExists,
    /// A well-formed payload that the operation cannot act on: an unknown
    /// construction discriminant, out-of-range dimensions, a mismatched
    /// pixel buffer, or popping an empty clip or layer stack.
    InvalidArgument,
    /// The payload failed structural or semantic validation before any
    /// surface state was touched.
    Decode(DecodeFault),
}

} // verus!
