use rasterizer::camera::{Camera, Frustum};
use rasterizer::fixed::Fx;
use rasterizer::math::{Mat4, Vec2, Vec4};
use rasterizer::Renderer;

fn identity_camera() -> Camera {
    Camera::new(Frustum::new(Mat4::identity()))
}

fn red() -> Vec4 {
    Vec4::from_i32(255, 0, 0, 255)
}

fn is_red(image: &[u8], w: u32, x: u32, y: u32) -> bool {
    let base = (((y * w) + x) * 4) as usize;
    image[base] == 255 && image[base + 1] == 0 && image[base + 2] == 0 && image[base + 3] == 255
}

#[test]
fn fresh_canvas_is_black_and_sized() {
    let r = Renderer::new(4, 3, identity_camera());
    assert_eq!(r.get_canva_width(), 4);
    assert_eq!(r.get_canva_height(), 3);
    let image = r.get_rendered_image();
    assert_eq!(image.len(), 48);
    assert!(image.iter().all(|b| *b == 0));
}

#[test]
fn clear_fills_every_pixel_with_the_color() {
    let mut r = Renderer::new(3, 2, identity_camera());
    r.clear(&Vec4::from_i32(9, 8, 7, 6));
    let image = r.get_rendered_image();
    assert_eq!(image.len(), 24);
    for (i, b) in image.iter().enumerate() {
        let expected = [9u8, 8, 7, 6][i % 4];
        assert_eq!(*b, expected);
    }
}

#[test]
fn clear_clamps_channels_to_bytes() {
    let mut r = Renderer::new(1, 1, identity_camera());
    r.clear(&Vec4::from_i32(300, -5, 0, 255));
    let image = r.get_rendered_image();
    assert_eq!(image, &[255u8, 0, 0, 255]);
}

#[test]
fn horizontal_line_writes_five_pixels() {
    let mut r = Renderer::new(8, 4, identity_camera());
    r.draw_line(&Vec2::from_i32(0, 0), &Vec2::from_i32(5, 0), &red());
    let image = r.get_rendered_image();
    for x in 0..5u32 {
        assert!(is_red(image, 8, x, 0), "pixel {} of the run is written", x);
    }
    assert!(!is_red(image, 8, 5, 0), "the final pixel is omitted");
    let red_count = (0..8u32)
        .flat_map(|x| (0..4u32).map(move |y| (x, y)))
        .filter(|(x, y)| is_red(image, 8, *x, *y))
        .count();
    assert_eq!(red_count, 5);
}

#[test]
fn diagonal_line_steps_one_pixel_per_column() {
    let mut r = Renderer::new(8, 8, identity_camera());
    r.draw_line(&Vec2::from_i32(0, 0), &Vec2::from_i32(3, 3), &red());
    let image = r.get_rendered_image();
    for i in 0..3u32 {
        assert!(is_red(image, 8, i, i));
    }
    assert!(!is_red(image, 8, 3, 3));
}

#[test]
fn line_far_outside_canvas_is_dropped() {
    let mut r = Renderer::new(16, 16, identity_camera());
    r.draw_line(
        &Vec2::from_i32(-1_000_000, -2_000_000),
        &Vec2::from_i32(-3_000_000, 4_000_000),
        &red(),
    );
    let image = r.get_rendered_image();
    assert_eq!(image.len(), 16 * 16 * 4);
    assert!(image.iter().all(|b| *b == 0));
}

#[test]
fn huge_coordinates_never_write_outside_the_buffer() {
    let mut r = Renderer::new(16, 16, identity_camera());
    let far = [
        (Vec2::from_i32(-2_000_000_000, 5), Vec2::from_i32(2_000_000_000, 7)),
        (Vec2::from_i32(8, -2_000_000_000), Vec2::from_i32(9, 2_000_000_000)),
        (Vec2 { x: Fx::from_raw(i64::MAX), y: Fx::from_raw(i64::MIN) }, Vec2::from_i32(3, 3)),
    ];
    for (p1, p2) in far.iter() {
        r.draw_line(p1, p2, &red());
    }
    assert_eq!(r.get_rendered_image().len(), 16 * 16 * 4);
    assert_eq!(r.get_canva_width(), 16);
    assert_eq!(r.get_canva_height(), 16);
}

#[test]
fn fixed_point_arithmetic_rounds_like_a_float_cast() {
    let three_halves = Fx::from_raw(98304);
    assert_eq!(three_halves.to_i32_trunc(), 1);
    assert_eq!(three_halves.ceil_i64(), 2);
    let minus_three_halves = Fx::from_raw(-98304);
    assert_eq!(minus_three_halves.to_i32_trunc(), -1);
    assert_eq!(minus_three_halves.ceil_i64(), -1);
    assert_eq!(Fx::from_i32(7).mul(Fx::from_i32(-3)).to_i32_trunc(), -21);
    assert_eq!(Fx::from_i32(7).div(Fx::from_i32(2)).raw, 7 * 65536 / 2);
}

#[test]
fn division_by_zero_saturates_instead_of_faulting() {
    let zero = Fx::from_i32(0);
    assert_eq!(Fx::from_i32(1).div(zero).raw, i64::MAX);
    assert_eq!(Fx::from_i32(-1).div(zero).raw, i64::MIN);
    assert_eq!(Fx::from_raw(i64::MAX).add(Fx::from_raw(i64::MAX)).raw, i64::MAX);
    assert_eq!(Fx::from_raw(i64::MIN).sub(Fx::from_raw(i64::MAX)).raw, i64::MIN);
}
