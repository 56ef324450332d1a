//! The trusted boundary to the raqote rasterization engine.
//!
//! Everything in this module is believed, not proved: each wrapper's body
//! makes exactly one engine call, and its doc comment names the engine
//! function relied on.  The engine computes with single-precision floats,
//! which this crate's verified model never touches, so scalar arguments
//! cross this boundary inside engine-level values (`raqote::Point`) that
//! the caller builds; the verified model carries the same scalars as bit
//! patterns and every decision is made on those.
//!
//! Pixel contents are the rasterizer's concern and are stated nowhere: the
//! verified contracts speak only of surface dimensions and of the clip,
//! layer and transform state that this crate mirrors.  Engine calls whose
//! safe use depends on that mirrored state — reading the pixel buffer,
//! pushing and popping layers — live beside the surface itself
//! (`crate::surface`), where their preconditions can be stated over its
//! model; this module holds the calls whose arguments are the opaque
//! engine values.

use vstd::prelude::*;

verus! {

#[verifier::external_type_specification]
#[verifier::external_body]
#[verifier::reject_recursive_types(Backing)]
pub struct ExDrawTarget<Backing>(raqote::DrawTarget<Backing>);

#[verifier::external_type_specification]
#[verifier::external_body]
pub struct ExPath(raqote::Path);

#[verifier::external_type_specification]
#[verifier::external_body]
pub struct ExSource<'a>(raqote::Source<'a>);

#[verifier::external_type_specification]
#[verifier::external_body]
pub struct ExStrokeStyle(raqote::StrokeStyle);

#[verifier::external_type_specification]
#[verifier::external_body]
pub struct ExBlendMode(raqote::BlendMode);

#[verifier::external_type_specification]
#[verifier::external_body]
pub struct ExUnknownUnit(euclid::UnknownUnit);

#[verifier::external_type_specification]
#[verifier::external_body]
#[verifier::reject_recursive_types(T)]
#[verifier::reject_recursive_types(U)]
pub struct ExPoint2D<T, U>(euclid::Point2D<T, U>);

#[verifier::external_type_specification]
#[verifier::external_body]
#[verifier::reject_recursive_types(T)]
#[verifier::reject_recursive_types(Src)]
#[verifier::reject_recursive_types(Dst)]
pub struct ExTransform2D<T, Src, Dst>(euclid::Transform2D<T, Src, Dst>);

/// Relies on `raqote::DrawTarget::new`, which allocates a zeroed
/// `width * height` pixel buffer and a rasterizer working over four
/// samples per scanline; the bounds keep both of its internal products
/// inside `i32`.
#[verifier::external_body]
pub(crate) fn dt_new(width: i32, height: i32) -> raqote::DrawTarget
    requires
        0 < width,
        0 < height,
        width * height <= i32::MAX,
        4 * width <= i32::MAX,
        4 * height <= i32::MAX,
{
    raqote::DrawTarget::new(width, height)
}

/// Relies on `raqote::DrawTarget::clear` and `raqote::SolidSource::from`:
/// fills the current clip with the color, premultiplying it first.
#[verifier::external_body]
pub(crate) fn dt_clear(dt: &mut raqote::DrawTarget, a: u8, r: u8, g: u8, b: u8) {
    dt.clear(raqote::SolidSource::from(raqote::Color::new(a, r, g, b)));
}

/// Relies on `raqote::DrawTarget::fill`: rasterizes the path interior with
/// the source, honoring the engine's current transform and clip stack.
/// A gradient source must carry at least one stop — the engine indexes
/// the list unconditionally — which the paint decoder guarantees for
/// every source built from a decoded paint.
#[verifier::external_body]
pub(crate) fn dt_fill(dt: &mut raqote::DrawTarget, path: &raqote::Path, src: &raqote::Source) {
    dt.fill(path, src, &raqote::DrawOptions::new());
}

/// Relies on `raqote::DrawTarget::stroke`: rasterizes the stroked
/// outline.  Callers hand in only values realizing decoded models: the
/// stroke decoder refuses negative dash entries (the sign-mixing
/// divergence of the engine's dashing loop) and the path decoder refuses
/// non-finite and over-large coordinates (an infinite segment length
/// makes that loop run forever).  What remains is the engine's own
/// limit: on a segment whose length exceeds about 2^24 times every dash
/// entry the subtraction is absorbed and the loop does not advance —
/// reachable with decoded inputs (sub-pixel dashes on an enormous
/// segment), as it was in the engine all along.  Gradient sources carry
/// at least one stop, as in [`dt_fill`].
#[verifier::external_body]
pub(crate) fn dt_stroke(
    dt: &mut raqote::DrawTarget,
    path: &raqote::Path,
    src: &raqote::Source,
    style: &raqote::StrokeStyle,
) {
    dt.stroke(path, src, style, &raqote::DrawOptions::new());
}

/// Relies on `raqote::DrawTarget::fill_rect`; the rectangle's origin rides
/// in the first point, its extent in the second.  The engine adds the
/// integer corner coordinates when the rectangle is integer-aligned, so
/// coordinates are expected to stay well inside the `i32` range; gradient
/// sources carry at least one stop, as in [`dt_fill`].
#[verifier::external_body]
pub(crate) fn dt_fill_rect(
    dt: &mut raqote::DrawTarget,
    origin: raqote::Point,
    size: raqote::Point,
    src: &raqote::Source,
) {
    dt.fill_rect(origin.x, origin.y, size.x, size.y, src, &raqote::DrawOptions::new());
}

/// Relies on `raqote::DrawTarget::set_transform`: replaces the engine's
/// current transform; no composition with the previous one.
#[verifier::external_body]
pub(crate) fn dt_set_transform(dt: &mut raqote::DrawTarget, t: &raqote::Transform) {
    dt.set_transform(t);
}

/// Relies on `raqote::DrawTarget::push_clip_rect`: intersects the given
/// device-space rectangle with the engine's current clip bounds (pure
/// component-wise min/max, no arithmetic) and pushes the result.
#[verifier::external_body]
pub(crate) fn dt_push_clip_rect(dt: &mut raqote::DrawTarget, x1: i32, y1: i32, x2: i32, y2: i32) {
    dt.push_clip_rect(
        raqote::IntRect::new(raqote::IntPoint::new(x1, y1), raqote::IntPoint::new(x2, y2)),
    );
}

/// Relies on `raqote::DrawTarget::push_clip`: rasterizes the path into a
/// mask, combines it with the previous mask, and pushes it with the
/// current clip bounds unchanged.
#[verifier::external_body]
pub(crate) fn dt_push_clip(dt: &mut raqote::DrawTarget, path: &raqote::Path) {
    dt.push_clip(path);
}

/// Relies on `raqote::DrawTarget::pop_clip`: pops the engine's clip stack;
/// a plain `Vec::pop`, harmless when empty.
#[verifier::external_body]
pub(crate) fn dt_pop_clip(dt: &mut raqote::DrawTarget) {
    dt.pop_clip();
}

/// Relies on `raqote::DrawTarget::draw_image_at` and the engine's image
/// sampling, which indexes the pixel slice by `y * width + x`: the buffer
/// must hold exactly `width * height` packed ARGB pixels.
#[verifier::external_body]
pub(crate) fn dt_draw_image_at(
    dt: &mut raqote::DrawTarget,
    pos: raqote::Point,
    width: i32,
    height: i32,
    data: &Vec<u32>,
)
    requires
        0 < width,
        0 < height,
        data@.len() == width * height,
{
    let image = raqote::Image { width, height, data: data.as_slice() };
    dt.draw_image_at(pos.x, pos.y, &image, &raqote::DrawOptions::new());
}

/// Relies on `raqote::DrawTarget::draw_image_with_size_at`, which
/// rescales the image to the extent riding in `size`; same buffer-length
/// reliance as [`dt_draw_image_at`].  The dimensions must be strictly
/// positive: the engine's sampling clamps coordinates to `width - 1`, and
/// a zero-dimension image under a nonempty target extent indexes out of
/// bounds.
#[verifier::external_body]
pub(crate) fn dt_draw_image_with_size_at(
    dt: &mut raqote::DrawTarget,
    size: raqote::Point,
    pos: raqote::Point,
    width: i32,
    height: i32,
    data: &Vec<u32>,
)
    requires
        0 < width,
        0 < height,
        data@.len() == width * height,
{
    let image = raqote::Image { width, height, data: data.as_slice() };
    dt.draw_image_with_size_at(size.x, size.y, pos.x, pos.y, &image, &raqote::DrawOptions::new());
}

} // verus!
