//! Affine-transform construction commands and their decoder.
//!
//! A transform payload carries a construction discriminant and six scalar
//! coefficients; which coefficients a mode reads, and how, depends on the
//! discriminant.  Setting a transform replaces the surface's current one —
//! there is no composition with the previous value.

use vstd::prelude::*;

use crate::scalar::Scalar;
use crate::status::GfxError;

verus! {

/// The construction discriminants of the transform payload.
pub const XFORM_TAG_COLUMN_MAJOR: u8 = 0;

pub const XFORM_TAG_ROW_MAJOR: u8 = 1;

pub const XFORM_TAG_SCALE: u8 = 2;

pub const XFORM_TAG_TRANSLATION: u8 = 3;

pub const XFORM_TAG_ROTATION: u8 = 4;

/// The six coefficients of a transform payload, in payload order.
#[derive(Clone, Copy, Debug, PartialEq, Eq, Structural)]
pub struct RawTransform {
    pub c0: Scalar,
    pub c1: Scalar,
    pub c2: Scalar,
    pub c3: Scalar,
    pub c4: Scalar,
    pub c5: Scalar,
}

/// A decoded transform command: what a surface's current transform was
/// constructed from.
#[derive(Clone, Copy, Debug, PartialEq, Eq, Structural)]
pub enum TransformCmd {
    /// The identity transform every surface starts with.
    Identity,
    /// Six coefficients read column by column.
    ColumnMajor { c0: Scalar, c1: Scalar, c2: Scalar, c3: Scalar, c4: Scalar, c5: Scalar },
    /// Six coefficients read row by row.
    RowMajor { c0: Scalar, c1: Scalar, c2: Scalar, c3: Scalar, c4: Scalar, c5: Scalar },
    /// A pure scale by (sx, sy).
    Scale { sx: Scalar, sy: Scalar },
    /// A pure translation by (tx, ty).
    Translation { tx: Scalar, ty: Scalar },
    /// A pure rotation; the angle is in degrees when the flag scalar of the
    /// payload was a zero of either sign, in radians otherwise.
    Rotation { angle: Scalar, degrees: bool },
}

/// What decoding a transform payload yields.  The scale and translation
/// modes read the first two coefficients; the rotation mode reads the
/// first as its unit flag and the second as the angle.  An unrecognized
/// discriminant is refused.
pub open spec fn transform_decode(tag: u8, m: RawTransform) -> Result<TransformCmd, GfxError> {
    if tag == XFORM_TAG_COLUMN_MAJOR {
        Ok(
            TransformCmd::ColumnMajor {
                c0: m.c0,
                c1: m.c1,
                c2: m.c2,
                c3: m.c3,
                c4: m.c4,
                c5: m.c5,
            },
        )
    } else if tag == XFORM_TAG_ROW_MAJOR {
        Ok(
            TransformCmd::RowMajor { c0: m.c0, c1: m.c1, c2: m.c2, c3: m.c3, c4: m.c4, c5: m.c5 },
        )
    } else if tag == XFORM_TAG_SCALE {
        Ok(TransformCmd::Scale { sx: m.c0, sy: m.c1 })
    } else if tag == XFORM_TAG_TRANSLATION {
        Ok(TransformCmd::Translation { tx: m.c0, ty: m.c1 })
    } else if tag == XFORM_TAG_ROTATION {
        Ok(TransformCmd::Rotation { angle: m.c1, degrees: m.c0.is_zero() })
    } else {
        Err(GfxError::InvalidArgument)
    }
}

/// Decodes a transform payload; returns exactly what [`transform_decode`]
/// says, and in particular refuses every discriminant above
/// [`XFORM_TAG_ROTATION`].
pub fn decode_transform(tag: u8, m: RawTransform) -> (r: Result<TransformCmd, GfxError>)
    ensures
        r == transform_decode(tag, m),
{
    if tag == XFORM_TAG_COLUMN_MAJOR {
        Ok(
            TransformCmd::ColumnMajor {
                c0: m.c0,
                c1: m.c1,
                c2: m.c2,
                c3: m.c3,
                c4: m.c4,
                c5: m.c5,
            },
        )
    } else if tag == XFORM_TAG_ROW_MAJOR {
        Ok(
            TransformCmd::RowMajor { c0: m.c0, c1: m.c1, c2: m.c2, c3: m.c3, c4: m.c4, c5: m.c5 },
        )
    } else if tag == XFORM_TAG_SCALE {
        Ok(TransformCmd::Scale { sx: m.c0, sy: m.c1 })
    } else if tag == XFORM_TAG_TRANSLATION {
        Ok(TransformCmd::Translation { tx: m.c0, ty: m.c1 })
    } else if tag == XFORM_TAG_ROTATION {
        Ok(TransformCmd::Rotation { angle: m.c1, degrees: m.c0.zero_valued() })
    } else {
        Err(GfxError::InvalidArgument)
    }
}

} // verus!
