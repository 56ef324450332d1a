use canvas_core::paint::{Blend, Color};
use canvas_core::registry::Registry;
use canvas_core::scalar::{Point, Scalar};
use canvas_core::status::GfxError;

fn s(v: f32) -> Scalar {
    Scalar { bits: v.to_bits() }
}

fn pt(x: f32, y: f32) -> raqote::Point {
    raqote::Point::new(x, y)
}

fn solid(a: u8, r: u8, g: u8, b: u8) -> raqote::Source<'static> {
    raqote::Source::from(raqote::Color::new(a, r, g, b))
}

/// The BGRA bytes of pixel (x, y) in a surface of the given width.
fn px(buf: &[u8], width: i32, x: i32, y: i32) -> [u8; 4] {
    let off = ((y * width + x) * 4) as usize;
    [buf[off], buf[off + 1], buf[off + 2], buf[off + 3]]
}

#[test]
fn create_then_destroy_then_create_succeeds() {
    let mut reg = Registry::new();
    assert_eq!(reg.create_surface(42, 8, 8), Ok(()));
    assert_eq!(reg.destroy_surface(42), Ok(()));
    assert_eq!(reg.create_surface(42, 16, 4), Ok(()));
    assert_eq!(reg.get_width(42), Ok(16));
    assert_eq!(reg.get_height(42), Ok(4));
}

#[test]
fn duplicate_create_fails_and_leaves_first_surface() {
    let mut reg = Registry::new();
    assert_eq!(reg.create_surface(7, 10, 12), Ok(()));
    assert_eq!(reg.create_surface(7, 99, 99), Err(GfxError::AlreadyExists));
    assert_eq!(reg.get_width(7), Ok(10));
    assert_eq!(reg.get_height(7), Ok(12));
}

#[test]
fn non_positive_dimensions_are_refused() {
    let mut reg = Registry::new();
    assert_eq!(reg.create_surface(1, 0, 10), Err(GfxError::InvalidArgument));
    assert_eq!(reg.create_surface(1, 10, -3), Err(GfxError::InvalidArgument));
    assert_eq!(reg.create_surface(1, 1 << 20, 1 << 20), Err(GfxError::InvalidArgument));
    assert_eq!(reg.get_width(1), Err(GfxError::NotFound));
}

#[test]
fn operations_on_unknown_id_fail_and_touch_nothing() {
    let mut reg = Registry::new();
    assert_eq!(reg.create_surface(5, 4, 4), Ok(()));
    assert_eq!(reg.clear(5, Color::new(255, 9, 9, 9)), Ok(()));
    let before = reg.get_pixels(5).unwrap();

    assert_eq!(reg.destroy_surface(6), Err(GfxError::NotFound));
    assert_eq!(reg.clear(6, Color::new(255, 1, 2, 3)), Err(GfxError::NotFound));
    assert_eq!(reg.pop_clip(6), Err(GfxError::NotFound));
    assert_eq!(reg.pop_layer(6), Err(GfxError::NotFound));
    assert_eq!(reg.push_clip_rect(6, 0, 0, 2, 2), Err(GfxError::NotFound));
    assert_eq!(reg.push_layer(6, s(1.0), pt(1.0, 0.0)), Err(GfxError::NotFound));
    assert_eq!(reg.get_width(6), Err(GfxError::NotFound));
    assert_eq!(
        reg.fill_rect(6, pt(0.0, 0.0), pt(1.0, 1.0), &solid(255, 1, 1, 1)),
        Err(GfxError::NotFound)
    );

    let after = reg.get_pixels(5).unwrap();
    assert_eq!(before, after);
}

#[test]
fn pixel_buffer_has_four_bytes_per_pixel() {
    let mut reg = Registry::new();
    assert_eq!(reg.create_surface(1, 6, 5), Ok(()));
    let buf = reg.get_pixels(1).unwrap();
    assert_eq!(buf.len(), 6 * 5 * 4);
}

#[test]
fn clear_fills_every_pixel() {
    let mut reg = Registry::new();
    assert_eq!(reg.create_surface(1, 4, 4), Ok(()));
    assert_eq!(reg.clear(1, Color::new(255, 255, 0, 0)), Ok(()));
    let buf = reg.get_pixels(1).unwrap();
    for y in 0..4 {
        for x in 0..4 {
            assert_eq!(px(&buf, 4, x, y), [0, 0, 255, 255]);
        }
    }
}

#[test]
fn triangle_fill_covers_interior_and_spares_exterior() {
    let mut reg = Registry::new();
    assert_eq!(reg.create_surface(1, 20, 20), Ok(()));
    assert_eq!(reg.clear(1, Color::new(255, 255, 255, 255)), Ok(()));

    let mut pb = raqote::PathBuilder::new();
    pb.move_to(0.0, 0.0);
    pb.line_to(10.0, 0.0);
    pb.line_to(10.0, 10.0);
    pb.close();
    let tri = pb.finish();
    assert_eq!(reg.fill(1, &tri, &solid(255, 255, 0, 0)), Ok(()));

    let buf = reg.get_pixels(1).unwrap();
    // Strictly inside the triangle.
    assert_eq!(px(&buf, 20, 7, 3), [0, 0, 255, 255]);
    assert_eq!(px(&buf, 20, 8, 2), [0, 0, 255, 255]);
    // Outside: still the clear color.
    assert_eq!(px(&buf, 20, 15, 15), [255, 255, 255, 255]);
    assert_eq!(px(&buf, 20, 2, 8), [255, 255, 255, 255]);
}

#[test]
fn empty_path_is_valid_and_draws_nothing() {
    let empty_model = canvas_core::path::PathData::empty();
    assert_eq!(empty_model.len(), 0);

    let mut reg = Registry::new();
    assert_eq!(reg.create_surface(1, 6, 6), Ok(()));
    assert_eq!(reg.clear(1, Color::new(255, 30, 30, 30)), Ok(()));
    let before = reg.get_pixels(1).unwrap();
    let empty_engine = raqote::PathBuilder::new().finish();
    assert_eq!(reg.fill(1, &empty_engine, &solid(255, 255, 0, 0)), Ok(()));
    let after = reg.get_pixels(1).unwrap();
    assert_eq!(before, after);
}

#[test]
fn fill_rect_paints_the_rectangle() {
    let mut reg = Registry::new();
    assert_eq!(reg.create_surface(1, 10, 10), Ok(()));
    assert_eq!(reg.clear(1, Color::new(255, 0, 0, 0)), Ok(()));
    assert_eq!(
        reg.fill_rect(1, pt(2.0, 2.0), pt(4.0, 4.0), &solid(255, 0, 255, 0)),
        Ok(())
    );
    let buf = reg.get_pixels(1).unwrap();
    assert_eq!(px(&buf, 10, 3, 3), [0, 255, 0, 255]);
    assert_eq!(px(&buf, 10, 8, 8), [0, 0, 0, 255]);
}

#[test]
fn stroke_draws_along_the_path() {
    let mut reg = Registry::new();
    assert_eq!(reg.create_surface(1, 10, 10), Ok(()));
    assert_eq!(reg.clear(1, Color::new(255, 0, 0, 0)), Ok(()));
    let mut pb = raqote::PathBuilder::new();
    pb.move_to(0.0, 5.0);
    pb.line_to(10.0, 5.0);
    let line = pb.finish();
    let style = raqote::StrokeStyle {
        width: 2.0,
        cap: raqote::LineCap::Butt,
        join: raqote::LineJoin::Miter,
        miter_limit: 10.0,
        dash_array: Vec::new(),
        dash_offset: 0.0,
    };
    assert_eq!(reg.stroke(1, &line, &solid(255, 0, 0, 255), &style), Ok(()));
    let buf = reg.get_pixels(1).unwrap();
    assert_eq!(px(&buf, 10, 5, 5), [255, 0, 0, 255]);
    assert_eq!(px(&buf, 10, 5, 1), [0, 0, 0, 255]);
}

#[test]
fn draw_image_at_composites_the_pixels() {
    let mut reg = Registry::new();
    assert_eq!(reg.create_surface(1, 8, 8), Ok(()));
    assert_eq!(reg.clear(1, Color::new(255, 0, 0, 0)), Ok(()));
    // A 2x2 opaque green image, packed ARGB premultiplied.
    let data: Vec<u32> = vec![0xFF00FF00; 4];
    assert_eq!(reg.draw_image_at(1, pt(1.0, 1.0), 2, 2, &data), Ok(()));
    let buf = reg.get_pixels(1).unwrap();
    assert_eq!(px(&buf, 8, 1, 1), [0, 255, 0, 255]);
    assert_eq!(px(&buf, 8, 5, 5), [0, 0, 0, 255]);
}

#[test]
fn draw_image_with_mismatched_buffer_is_refused() {
    let mut reg = Registry::new();
    assert_eq!(reg.create_surface(1, 8, 8), Ok(()));
    let data: Vec<u32> = vec![0xFF00FF00; 3];
    assert_eq!(
        reg.draw_image_at(1, pt(1.0, 1.0), 2, 2, &data),
        Err(GfxError::InvalidArgument)
    );
    assert_eq!(
        reg.draw_image_with_size_at(1, pt(4.0, 4.0), pt(1.0, 1.0), 2, 2, &data),
        Err(GfxError::InvalidArgument)
    );
    assert_eq!(
        reg.draw_image_at(1, pt(1.0, 1.0), -2, 2, &data),
        Err(GfxError::InvalidArgument)
    );
    // Zero dimensions are refused too: the engine's sampling clamps
    // coordinates to width - 1.
    let empty: Vec<u32> = Vec::new();
    assert_eq!(
        reg.draw_image_at(1, pt(1.0, 1.0), 0, 0, &empty),
        Err(GfxError::InvalidArgument)
    );
    assert_eq!(
        reg.draw_image_with_size_at(1, pt(4.0, 4.0), pt(1.0, 1.0), 0, 0, &empty),
        Err(GfxError::InvalidArgument)
    );
}

#[test]
fn draw_image_with_size_rescales() {
    let mut reg = Registry::new();
    assert_eq!(reg.create_surface(1, 8, 8), Ok(()));
    assert_eq!(reg.clear(1, Color::new(255, 0, 0, 0)), Ok(()));
    let data: Vec<u32> = vec![0xFFFF0000; 1];
    assert_eq!(
        reg.draw_image_with_size_at(1, pt(4.0, 4.0), pt(2.0, 2.0), 1, 1, &data),
        Ok(())
    );
    let buf = reg.get_pixels(1).unwrap();
    assert_eq!(px(&buf, 8, 4, 4), [0, 0, 255, 255]);
    assert_eq!(px(&buf, 8, 7, 7), [0, 0, 0, 255]);
}

#[test]
fn push_layer_with_blend_accepts_any_decoded_mode() {
    let mut reg = Registry::new();
    assert_eq!(reg.create_surface(1, 6, 6), Ok(()));
    assert_eq!(
        reg.push_layer_with_blend(
            1,
            s(0.5),
            Blend::Multiply,
            pt(0.5, 0.0),
            raqote::BlendMode::Multiply,
        ),
        Ok(())
    );
    assert_eq!(reg.pop_layer(1), Ok(()));
}
