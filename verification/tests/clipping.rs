use rasterizer::clip::{cohen_sutherland_line_clip, compute_outcode};
use rasterizer::fixed::Fx;
use rasterizer::math::Vec2;

fn rect() -> (Vec2, Vec2) {
    (Vec2::from_i32(0, 0), Vec2::from_i32(10, 10))
}

#[test]
fn inside_segment_returned_unchanged() {
    let (lo, hi) = rect();
    let p1 = Vec2::from_i32(2, 3);
    let p2 = Vec2::from_i32(5, 6);
    let r = cohen_sutherland_line_clip(&p1, &p2, &lo, &hi);
    assert_eq!(r, Some((p1, p2)));
}

#[test]
fn boundary_segment_returned_unchanged() {
    let (lo, hi) = rect();
    let p1 = Vec2::from_i32(0, 0);
    let p2 = Vec2::from_i32(10, 10);
    let r = cohen_sutherland_line_clip(&p1, &p2, &lo, &hi);
    assert_eq!(r, Some((p1, p2)));
}

#[test]
fn fully_left_segment_rejected() {
    let (lo, hi) = rect();
    let p1 = Vec2::from_i32(-5, 2);
    let p2 = Vec2::from_i32(-1, 9);
    assert_eq!(cohen_sutherland_line_clip(&p1, &p2, &lo, &hi), None);
}

#[test]
fn fully_above_segment_rejected() {
    let (lo, hi) = rect();
    let p1 = Vec2::from_i32(3, 11);
    let p2 = Vec2::from_i32(8, 20);
    assert_eq!(cohen_sutherland_line_clip(&p1, &p2, &lo, &hi), None);
}

#[test]
fn crossing_right_endpoint_lands_on_boundary() {
    let (lo, hi) = rect();
    let p1 = Vec2::from_i32(5, 5);
    let p2 = Vec2::from_i32(15, 5);
    let r = cohen_sutherland_line_clip(&p1, &p2, &lo, &hi);
    let q2 = Vec2::from_i32(10, 5);
    assert_eq!(r, Some((p1, q2)));
}

#[test]
fn crossing_left_endpoint_lands_on_boundary() {
    let (lo, hi) = rect();
    let p1 = Vec2::from_i32(-6, 4);
    let p2 = Vec2::from_i32(6, 4);
    let r = cohen_sutherland_line_clip(&p1, &p2, &lo, &hi);
    let q1 = Vec2::from_i32(0, 4);
    assert_eq!(r, Some((q1, p2)));
}

#[test]
fn outcode_zero_on_boundary_points() {
    let (lo, hi) = rect();
    assert_eq!(compute_outcode(&Vec2::from_i32(0, 0), &lo, &hi), 0);
    assert_eq!(compute_outcode(&Vec2::from_i32(10, 10), &lo, &hi), 0);
    assert_eq!(compute_outcode(&Vec2::from_i32(0, 10), &lo, &hi), 0);
    assert_eq!(compute_outcode(&Vec2::from_i32(10, 0), &lo, &hi), 0);
    assert_eq!(compute_outcode(&Vec2::from_i32(5, 10), &lo, &hi), 0);
}

#[test]
fn outcode_bits_per_violated_side() {
    let (lo, hi) = rect();
    assert_eq!(compute_outcode(&Vec2::from_i32(-1, 5), &lo, &hi), 1);
    assert_eq!(compute_outcode(&Vec2::from_i32(11, 5), &lo, &hi), 2);
    assert_eq!(compute_outcode(&Vec2::from_i32(5, -1), &lo, &hi), 4);
    assert_eq!(compute_outcode(&Vec2::from_i32(5, 11), &lo, &hi), 8);
    assert_eq!(compute_outcode(&Vec2::from_i32(-1, 11), &lo, &hi), 9);
    assert_eq!(compute_outcode(&Vec2::from_i32(11, -1), &lo, &hi), 6);
}

#[test]
fn repeated_calls_agree() {
    let (lo, hi) = rect();
    let segments = [
        (Vec2::from_i32(2, 3), Vec2::from_i32(5, 6)),
        (Vec2::from_i32(-5, 2), Vec2::from_i32(-1, 9)),
        (Vec2::from_i32(5, 5), Vec2::from_i32(15, 5)),
        (Vec2::from_i32(-7, -7), Vec2::from_i32(20, 20)),
        (
            Vec2 { x: Fx::from_raw(-98304), y: Fx::from_raw(32768) },
            Vec2 { x: Fx::from_raw(720896), y: Fx::from_raw(458752) },
        ),
    ];
    for (p1, p2) in segments.iter() {
        let first = cohen_sutherland_line_clip(p1, p2, &lo, &hi);
        let second = cohen_sutherland_line_clip(p1, p2, &lo, &hi);
        assert_eq!(first, second);
        assert!(!(first.is_none() && second.is_some()));
    }
}

#[test]
fn diagonal_crossing_corner_stays_inside() {
    let (lo, hi) = rect();
    let p1 = Vec2::from_i32(-7, -7);
    let p2 = Vec2::from_i32(20, 20);
    let r = cohen_sutherland_line_clip(&p1, &p2, &lo, &hi);
    let (q1, q2) = r.expect("the diagonal passes through the rectangle");
    for q in [q1, q2].iter() {
        assert_eq!(compute_outcode(q, &lo, &hi), 0);
    }
}
