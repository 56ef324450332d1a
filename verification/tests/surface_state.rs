use canvas_core::paint::Color;
use canvas_core::path::PathBuilder;
use canvas_core::registry::Registry;
use canvas_core::scalar::{Point, Scalar};
use canvas_core::status::GfxError;
use canvas_core::transform::RawTransform;

fn s(v: f32) -> Scalar {
    Scalar { bits: v.to_bits() }
}

fn mp(x: f32, y: f32) -> Point {
    Point { x: s(x), y: s(y) }
}

fn pt(x: f32, y: f32) -> raqote::Point {
    raqote::Point::new(x, y)
}

fn solid(a: u8, r: u8, g: u8, b: u8) -> raqote::Source<'static> {
    raqote::Source::from(raqote::Color::new(a, r, g, b))
}

fn px(buf: &[u8], width: i32, x: i32, y: i32) -> [u8; 4] {
    let off = ((y * width + x) * 4) as usize;
    [buf[off], buf[off + 1], buf[off + 2], buf[off + 3]]
}

fn coeffs(c0: f32, c1: f32) -> RawTransform {
    RawTransform { c0: s(c0), c1: s(c1), c2: s(0.0), c3: s(0.0), c4: s(0.0), c5: s(0.0) }
}

#[test]
fn clip_restricts_then_pop_restores() {
    let mut reg = Registry::new();
    assert_eq!(reg.create_surface(1, 10, 10), Ok(()));
    assert_eq!(reg.clear(1, Color::new(255, 0, 0, 0)), Ok(()));

    assert_eq!(reg.push_clip_rect(1, 0, 0, 4, 4), Ok(()));
    assert_eq!(reg.clear(1, Color::new(255, 255, 0, 0)), Ok(()));
    let clipped = reg.get_pixels(1).unwrap();
    assert_eq!(px(&clipped, 10, 2, 2), [0, 0, 255, 255]);
    assert_eq!(px(&clipped, 10, 7, 7), [0, 0, 0, 255]);

    assert_eq!(reg.pop_clip(1), Ok(()));
    assert_eq!(reg.clear(1, Color::new(255, 0, 255, 0)), Ok(()));
    let unclipped = reg.get_pixels(1).unwrap();
    // The pop removed the only clip: drawing reaches the whole surface
    // again, exactly as before the push.
    assert_eq!(px(&unclipped, 10, 2, 2), [0, 255, 0, 255]);
    assert_eq!(px(&unclipped, 10, 7, 7), [0, 255, 0, 255]);
}

#[test]
fn path_clip_masks_drawing() {
    let mut reg = Registry::new();
    assert_eq!(reg.create_surface(1, 10, 10), Ok(()));
    assert_eq!(reg.clear(1, Color::new(255, 0, 0, 0)), Ok(()));

    let mut model = PathBuilder::new();
    model.rect(mp(0.0, 0.0), s(5.0), s(5.0));
    let shape = model.finish();

    let mut pb = raqote::PathBuilder::new();
    pb.rect(0.0, 0.0, 5.0, 5.0);
    let engine_path = pb.finish();

    assert_eq!(reg.push_clip(1, shape, &engine_path), Ok(()));
    assert_eq!(reg.clear(1, Color::new(255, 255, 0, 0)), Ok(()));
    let buf = reg.get_pixels(1).unwrap();
    // Inside the clip the red fill landed (the engine's clip mask may cost
    // one unit of rounding); outside it the surface is untouched.
    let inside = px(&buf, 10, 2, 2);
    assert!(inside[2] >= 250 && inside[3] == 255 && inside[0] <= 5 && inside[1] <= 5);
    assert_eq!(px(&buf, 10, 8, 8), [0, 0, 0, 255]);
    assert_eq!(reg.pop_clip(1), Ok(()));
}

#[test]
fn pop_on_empty_stacks_fails_and_leaves_pixels() {
    let mut reg = Registry::new();
    assert_eq!(reg.create_surface(1, 6, 6), Ok(()));
    assert_eq!(reg.clear(1, Color::new(255, 10, 20, 30)), Ok(()));
    let before = reg.get_pixels(1).unwrap();

    assert_eq!(reg.pop_clip(1), Err(GfxError::InvalidArgument));
    assert_eq!(reg.pop_layer(1), Err(GfxError::InvalidArgument));

    let after = reg.get_pixels(1).unwrap();
    assert_eq!(before, after);
}

#[test]
fn pop_only_affects_its_own_stack() {
    let mut reg = Registry::new();
    assert_eq!(reg.create_surface(1, 6, 6), Ok(()));
    assert_eq!(reg.push_clip_rect(1, 0, 0, 6, 6), Ok(()));
    // The layer stack is still empty: popping it fails even though a clip
    // was pushed, and the clip can still be popped afterwards.
    assert_eq!(reg.pop_layer(1), Err(GfxError::InvalidArgument));
    assert_eq!(reg.pop_clip(1), Ok(()));
    assert_eq!(reg.pop_clip(1), Err(GfxError::InvalidArgument));
}

#[test]
fn full_opacity_layer_round_trip_is_a_no_op_on_content() {
    let mut reg = Registry::new();
    assert_eq!(reg.create_surface(1, 20, 20), Ok(()));
    assert_eq!(reg.create_surface(2, 20, 20), Ok(()));
    assert_eq!(reg.clear(1, Color::new(255, 255, 255, 255)), Ok(()));
    assert_eq!(reg.clear(2, Color::new(255, 255, 255, 255)), Ok(()));

    // Surface 1: draw inside a full-opacity, default-blend layer.
    assert_eq!(reg.push_layer(1, s(1.0), pt(1.0, 0.0)), Ok(()));
    assert_eq!(
        reg.fill_rect(1, pt(3.0, 3.0), pt(8.0, 8.0), &solid(255, 200, 40, 10)),
        Ok(())
    );
    assert_eq!(reg.pop_layer(1), Ok(()));

    // Surface 2: the same draw directly.
    assert_eq!(
        reg.fill_rect(2, pt(3.0, 3.0), pt(8.0, 8.0), &solid(255, 200, 40, 10)),
        Ok(())
    );

    let with_layer = reg.get_pixels(1).unwrap();
    let direct = reg.get_pixels(2).unwrap();
    assert_eq!(with_layer, direct);
}

#[test]
fn unrecognized_transform_discriminant_changes_nothing() {
    let mut reg = Registry::new();
    assert_eq!(reg.create_surface(1, 12, 12), Ok(()));
    assert_eq!(reg.create_surface(2, 12, 12), Ok(()));
    assert_eq!(reg.clear(1, Color::new(255, 0, 0, 0)), Ok(()));
    assert_eq!(reg.clear(2, Color::new(255, 0, 0, 0)), Ok(()));

    let shift = raqote::Transform::translation(4.0, 0.0);
    assert_eq!(reg.set_transform(1, 3, coeffs(4.0, 0.0), &shift), Ok(()));
    assert_eq!(reg.set_transform(2, 3, coeffs(4.0, 0.0), &shift), Ok(()));

    // Surface 2 additionally receives a bad discriminant; the engine value
    // handed alongside it must not be applied.
    assert_eq!(
        reg.set_transform(2, 9, coeffs(9.0, 9.0), &raqote::Transform::translation(9.0, 9.0)),
        Err(GfxError::InvalidArgument)
    );

    // The same known-good draw on both surfaces must land identically.
    assert_eq!(
        reg.fill_rect(1, pt(0.0, 0.0), pt(4.0, 4.0), &solid(255, 0, 0, 255)),
        Ok(())
    );
    assert_eq!(
        reg.fill_rect(2, pt(0.0, 0.0), pt(4.0, 4.0), &solid(255, 0, 0, 255)),
        Ok(())
    );
    let a = reg.get_pixels(1).unwrap();
    let b = reg.get_pixels(2).unwrap();
    assert_eq!(a, b);
    // And the translation was in effect: the rectangle starts at x = 4.
    assert_eq!(px(&a, 12, 2, 2), [0, 0, 0, 255]);
    assert_eq!(px(&a, 12, 6, 2), [255, 0, 0, 255]);
}

#[test]
fn set_transform_replaces_rather_than_composes() {
    let mut reg = Registry::new();
    assert_eq!(reg.create_surface(1, 12, 12), Ok(()));
    assert_eq!(reg.clear(1, Color::new(255, 0, 0, 0)), Ok(()));

    // Two translations in a row: only the second one applies.
    assert_eq!(
        reg.set_transform(1, 3, coeffs(4.0, 0.0), &raqote::Transform::translation(4.0, 0.0)),
        Ok(())
    );
    assert_eq!(
        reg.set_transform(1, 3, coeffs(0.0, 4.0), &raqote::Transform::translation(0.0, 4.0)),
        Ok(())
    );
    assert_eq!(
        reg.fill_rect(1, pt(0.0, 0.0), pt(3.0, 3.0), &solid(255, 255, 255, 255)),
        Ok(())
    );
    let buf = reg.get_pixels(1).unwrap();
    assert_eq!(px(&buf, 12, 1, 5), [255, 255, 255, 255]);
    assert_eq!(px(&buf, 12, 5, 5), [0, 0, 0, 255]);
    assert_eq!(px(&buf, 12, 5, 1), [0, 0, 0, 255]);
}

#[test]
fn degenerate_clip_bounds_refuse_a_layer() {
    let mut reg = Registry::new();
    assert_eq!(reg.create_surface(1, 10, 10), Ok(()));
    // Two disjoint clip rectangles with mixed extents produce inverted
    // bounds the engine could not allocate a layer under.
    assert_eq!(reg.push_clip_rect(1, 10, 10, 20, 50), Ok(()));
    assert_eq!(reg.push_clip_rect(1, 30, 5, 40, 45), Ok(()));
    assert_eq!(reg.push_layer(1, s(1.0), pt(1.0, 0.0)), Err(GfxError::InvalidArgument));
    // Clearing the bad clips restores layer pushes.
    assert_eq!(reg.pop_clip(1), Ok(()));
    assert_eq!(reg.pop_clip(1), Ok(()));
    assert_eq!(reg.push_layer(1, s(1.0), pt(1.0, 0.0)), Ok(()));
    assert_eq!(reg.pop_layer(1), Ok(()));
}

