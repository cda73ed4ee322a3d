use rasterizer::camera::{Camera, Frustum};
use rasterizer::math::{Mat4, Vec2, Vec3, Vec4};
use rasterizer::scanline::{Scanline, Trapezoid};
use rasterizer::Renderer;

fn identity_camera() -> Camera {
    Camera::new(Frustum::new(Mat4::identity()))
}

fn red() -> Vec4 {
    Vec4::from_i32(255, 0, 0, 255)
}

fn is_red(image: &[u8], w: u32, x: u32, y: u32) -> bool {
    let base = (((y * w) + x) * 4) as usize;
    image[base] == 255 && image[base + 1] == 0 && image[base + 2] == 0 && image[base + 3] == 255
}

#[test]
fn viewport_maps_ndc_corners_to_pixel_edges() {
    let r = Renderer::new(100, 100, identity_camera());
    let m = Mat4::identity();
    let low = r.project_point(&m, &Vec3::from_i32(-1, -1, 0));
    assert_eq!(low.x.raw, 0);
    assert_eq!(low.y.raw, 100 * 65536);
    let high = r.project_point(&m, &Vec3::from_i32(1, 1, 0));
    assert_eq!(high.x.raw, 99 * 65536);
    assert_eq!(high.y.raw, 1 * 65536);
}

#[test]
fn split_triangle_trapezoids_share_the_middle_row_once() {
    let pts = [Vec2::from_i32(0, 0), Vec2::from_i32(10, 4), Vec2::from_i32(0, 8)];
    let (t1, t2) = Trapezoid::from_triangle(&pts);
    let t1 = t1.expect("upper trapezoid");
    let t2 = t2.expect("lower trapezoid");
    assert_eq!(t1.bottom, t2.top);
    let (s1, e1) = t1.row_bounds(16);
    let (s2, e2) = t2.row_bounds(16);
    assert_eq!((s1, e1), (0, 3));
    assert_eq!((s2, e2), (4, 7));
    assert!(e1 < s2, "the shared row belongs to the lower trapezoid alone");
}

#[test]
fn flat_bottom_triangle_yields_one_trapezoid() {
    let pts = [Vec2::from_i32(4, 0), Vec2::from_i32(0, 6), Vec2::from_i32(8, 6)];
    let (t1, t2) = Trapezoid::from_triangle(&pts);
    let t1 = t1.expect("single trapezoid");
    assert!(t2.is_none());
    assert_eq!(t1.top.raw, 0);
    assert_eq!(t1.bottom.raw, 6 * 65536);
}

#[test]
fn scanline_spans_between_the_edges() {
    let pts = [Vec2::from_i32(0, 0), Vec2::from_i32(10, 4), Vec2::from_i32(0, 8)];
    let (t1, _) = Trapezoid::from_triangle(&pts);
    let t1 = t1.expect("upper trapezoid");
    let sl = Scanline::from_trapezoid(&t1, 2);
    assert_eq!(sl.y, 2);
    assert_eq!(sl.vertex.x.raw, 0);
    assert_eq!(sl.vertex.y.raw, 2 * 65536);
    assert_eq!(sl.width.raw, 5 * 65536);
    assert_eq!(sl.step.x.raw, 65536);
    assert_eq!(sl.step.y.raw, 0);
}

#[test]
fn end_to_end_triangle_fills_and_outlines_the_canvas() {
    let mut r = Renderer::new(10, 10, identity_camera());
    r.clear(&Vec4::from_i32(0, 0, 0, 0));
    let vertices = [Vec3::from_i32(-1, -1, 0), Vec3::from_i32(1, -1, 0), Vec3::from_i32(0, 1, 0)];
    r.draw_triangle(&Mat4::identity(), &vertices, &red());
    let image = r.get_rendered_image();

    // fill rows 2..=8 plus the two slanted outline edges; the bottom
    // screen row of the triangle itself lies at y = 10, off the canvas,
    // so row 9 holds only the clipped start of the right edge
    let expected_runs: [(u32, u32, u32); 9] = [
        (1, 4, 4),
        (2, 3, 4),
        (3, 3, 5),
        (4, 2, 5),
        (5, 2, 6),
        (6, 1, 6),
        (7, 1, 7),
        (8, 0, 7),
        (9, 8, 8),
    ];
    for (y, x_lo, x_hi) in expected_runs.iter() {
        for x in 0..10u32 {
            let expect_red = *x_lo <= x && x <= *x_hi;
            assert_eq!(
                is_red(image, 10, x, *y),
                expect_red,
                "pixel ({}, {}) of the rendered triangle",
                x,
                y
            );
        }
    }
    for x in 0..10u32 {
        assert!(!is_red(image, 10, x, 0), "the apex row above the triangle stays empty");
    }
}

#[test]
fn triangle_far_outside_the_canvas_never_panics() {
    let mut r = Renderer::new(10, 10, identity_camera());
    let vertices = [
        Vec3::from_i32(50_000, -50_000, 1),
        Vec3::from_i32(-50_000, 50_000, -1),
        Vec3::from_i32(20_000, 20_000, 0),
    ];
    r.draw_triangle(&Mat4::identity(), &vertices, &red());
    assert_eq!(r.get_rendered_image().len(), 400);
    assert_eq!(r.get_canva_width(), 10);
    assert_eq!(r.get_canva_height(), 10);
}

#[test]
fn zero_w_perspective_divide_saturates_and_draws_nothing() {
    let zero_row = Vec4::from_i32(0, 0, 0, 0);
    let zero_mat = Mat4::from_rows(zero_row, zero_row, zero_row, zero_row);
    let mut r = Renderer::new(10, 10, Camera::new(Frustum::new(zero_mat)));
    let vertices = [Vec3::from_i32(0, 0, 0), Vec3::from_i32(1, 0, 0), Vec3::from_i32(0, 1, 0)];
    r.draw_triangle(&Mat4::identity(), &vertices, &red());
    assert!(r.get_rendered_image().iter().all(|b| *b == 0));
}

#[test]
fn degenerate_triangle_on_one_row_draws_no_fill() {
    let mut r = Renderer::new(10, 10, identity_camera());
    let pts = [Vec2::from_i32(1, 3), Vec2::from_i32(5, 3), Vec2::from_i32(8, 3)];
    let (t1, t2) = Trapezoid::from_triangle(&pts);
    assert!(t2.is_none());
    let t1 = t1.expect("a flat trapezoid");
    r.clear(&Vec4::from_i32(0, 0, 0, 0));
    let (s, e) = t1.row_bounds(10);
    assert!(e < s, "an empty scan range");
}
