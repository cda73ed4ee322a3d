//! The trapezoid/scanline provider: it decomposes a screen-space triangle
//! into at most two trapezoids by splitting at the middle vertex's row,
//! and derives one horizontal span per integer scanline row.

use vstd::prelude::*;
use crate::fixed::{Fx, fx_add, fx_sub, fx_mul, fx_div, ceil_div};
use crate::math::Vec2;

verus! {

/// One slanted side of a trapezoid, from its upper to its lower endpoint
/// in Y-down screen coordinates.
#[derive(Clone, Copy, PartialEq, Eq, Debug)]
pub struct Edge {
    pub top: Vec2,
    pub bottom: Vec2,
}

/// A horizontal slab of a triangle bounded by two possibly-slanted edges;
/// `top <= bottom` in Y-down screen coordinates.
#[derive(Clone, Copy, PartialEq, Eq, Debug)]
pub struct Trapezoid {
    pub top: Fx,
    pub bottom: Fx,
    pub left: Edge,
    pub right: Edge,
}

/// One horizontal pixel run within a trapezoid at a fixed row: the left
/// endpoint, the per-pixel step, and the span length in pixels.
#[derive(Clone, Copy, PartialEq, Eq, Debug)]
pub struct Scanline {
    pub vertex: Vec2,
    pub step: Vec2,
    pub width: Fx,
    pub y: i32,
}

/// The three points in ascending `y` order; points of equal `y` keep
/// their incoming order.
pub open spec fn sort3_spec(p0: Vec2, p1: Vec2, p2: Vec2) -> (Vec2, Vec2, Vec2) {
    let (a1, b1) = if p1.y.v() < p0.y.v() {
        (p1, p0)
    } else {
        (p0, p1)
    };
    let (b2, c2) = if p2.y.v() < b1.y.v() {
        (p2, b1)
    } else {
        (b1, p2)
    };
    let (a3, b3) = if b2.y.v() < a1.y.v() {
        (b2, a1)
    } else {
        (a1, b2)
    };
    (a3, b3, c2)
}

/// The horizontal split point: on the long edge `a .. c` at the middle
/// vertex's row `b.y`.
pub open spec fn split_x_spec(a: Vec2, b: Vec2, c: Vec2) -> int {
    fx_add(
        a.x.v(),
        fx_div(fx_mul(fx_sub(c.x.v(), a.x.v()), fx_sub(b.y.v(), a.y.v())), fx_sub(c.y.v(), a.y.v())),
    )
}

/// Decomposition of a triangle into at most two trapezoids: a flat-top or
/// flat-bottom triangle yields one, any other yields two that share the
/// middle vertex's row as the first's `bottom` and the second's `top`.
pub open spec fn from_triangle_spec(p0: Vec2, p1: Vec2, p2: Vec2) -> (
    Option<Trapezoid>,
    Option<Trapezoid>,
) {
    let (a, b, c) = sort3_spec(p0, p1, p2);
    if a.y.v() == b.y.v() {
        let (l, r) = if a.x.v() <= b.x.v() {
            (Edge { top: a, bottom: c }, Edge { top: b, bottom: c })
        } else {
            (Edge { top: b, bottom: c }, Edge { top: a, bottom: c })
        };
        (Some(Trapezoid { top: a.y, bottom: c.y, left: l, right: r }), None)
    } else if b.y.v() == c.y.v() {
        let (l, r) = if b.x.v() <= c.x.v() {
            (Edge { top: a, bottom: b }, Edge { top: a, bottom: c })
        } else {
            (Edge { top: a, bottom: c }, Edge { top: a, bottom: b })
        };
        (Some(Trapezoid { top: a.y, bottom: b.y, left: l, right: r }), None)
    } else {
        let m = Vec2 { x: Fx { raw: split_x_spec(a, b, c) as i64 }, y: b.y };
        if b.x.v() <= m.x.v() {
            (
                Some(
                    Trapezoid {
                        top: a.y,
                        bottom: b.y,
                        left: Edge { top: a, bottom: b },
                        right: Edge { top: a, bottom: m },
                    },
                ),
                Some(
                    Trapezoid {
                        top: b.y,
                        bottom: c.y,
                        left: Edge { top: b, bottom: c },
                        right: Edge { top: m, bottom: c },
                    },
                ),
            )
        } else {
            (
                Some(
                    Trapezoid {
                        top: a.y,
                        bottom: b.y,
                        left: Edge { top: a, bottom: m },
                        right: Edge { top: a, bottom: b },
                    },
                ),
                Some(
                    Trapezoid {
                        top: b.y,
                        bottom: c.y,
                        left: Edge { top: m, bottom: c },
                        right: Edge { top: b, bottom: c },
                    },
                ),
            )
        }
    }
}

/// The edge's horizontal position at the given row, interpolated along
/// the edge; a horizontal edge saturates (its rows are never sampled).
pub open spec fn edge_x_spec(e: Edge, yraw: int) -> int {
    fx_add(
        e.top.x.v(),
        fx_div(
            fx_mul(fx_sub(e.bottom.x.v(), e.top.x.v()), fx_sub(yraw, e.top.y.v())),
            fx_sub(e.bottom.y.v(), e.top.y.v()),
        ),
    )
}

/// The span of a trapezoid at integer row `y`: left endpoint on the left
/// edge, a one-pixel step to the right, and the distance to the right
/// edge as its width.
pub open spec fn scanline_spec(t: Trapezoid, y: int) -> Scanline {
    let yraw = y * 65536;
    let lx = edge_x_spec(t.left, yraw);
    let rx = edge_x_spec(t.right, yraw);
    Scanline {
        vertex: Vec2 { x: Fx { raw: lx as i64 }, y: Fx { raw: yraw as i64 } },
        step: Vec2 { x: Fx { raw: 65536 }, y: Fx { raw: 0 } },
        width: Fx { raw: fx_sub(rx, lx) as i64 },
        y: y as i32,
    }
}

/// First scanline row of a trapezoid: its `top` rounded up, never above
/// the canvas top.
pub open spec fn trap_row_start(t: Trapezoid) -> int {
    let c = ceil_div(t.top.v(), 65536);
    if c < 0 {
        0
    } else {
        c
    }
}

/// Last scanline row of a trapezoid: one above its `bottom` rounded up
/// (the bottom boundary row is an open bound, shared with the next
/// trapezoid in a split triangle), and never below the canvas bottom.
pub open spec fn trap_row_end(t: Trapezoid, bh: int) -> int {
    let c = ceil_div(t.bottom.v(), 65536);
    (if c < bh - 1 {
        c
    } else {
        bh - 1
    }) - 1
}

/// Two trapezoids that share a row as the first's `bottom` and the
/// second's `top` fill disjoint row ranges: the shared row is filled by
/// the lower trapezoid alone, so a split triangle never double-fills it.
pub proof fn lemma_split_rows_disjoint(t1: Trapezoid, t2: Trapezoid, bh: int, y: int)
    requires
        t1.bottom == t2.top,
    ensures
        !(trap_row_start(t1) <= y <= trap_row_end(t1, bh) && trap_row_start(t2) <= y
            <= trap_row_end(t2, bh)),
{
}

impl Trapezoid {
    /// Split the triangle into at most two trapezoids at the middle
    /// vertex's row.
    pub fn from_triangle(pts: &[Vec2; 3]) -> (r: (Option<Trapezoid>, Option<Trapezoid>))
        ensures
            r == from_triangle_spec(pts[0], pts[1], pts[2]),
            r.1 is Some ==> r.0 is Some,
            match r {
                (Some(t1), Some(t2)) => t1.bottom == t2.top,
                _ => true,
            },
    {
        let mut a = pts[0];
        let mut b = pts[1];
        let mut c = pts[2];
        if b.y.raw < a.y.raw {
            let t = a;
            a = b;
            b = t;
        }
        if c.y.raw < b.y.raw {
            let t = b;
            b = c;
            c = t;
        }
        if b.y.raw < a.y.raw {
            let t = a;
            a = b;
            b = t;
        }
        proof {
            assert((a, b, c) == sort3_spec(pts[0], pts[1], pts[2]));
        }
        if a.y.raw == b.y.raw {
            let (l, r) = if a.x.raw <= b.x.raw {
                (Edge { top: a, bottom: c }, Edge { top: b, bottom: c })
            } else {
                (Edge { top: b, bottom: c }, Edge { top: a, bottom: c })
            };
            (Some(Trapezoid { top: a.y, bottom: c.y, left: l, right: r }), None)
        } else if b.y.raw == c.y.raw {
            let (l, r) = if b.x.raw <= c.x.raw {
                (Edge { top: a, bottom: b }, Edge { top: a, bottom: c })
            } else {
                (Edge { top: a, bottom: c }, Edge { top: a, bottom: b })
            };
            (Some(Trapezoid { top: a.y, bottom: b.y, left: l, right: r }), None)
        } else {
            let xm = a.x.add(c.x.sub(a.x).mul(b.y.sub(a.y)).div(c.y.sub(a.y)));
            let m = Vec2 { x: xm, y: b.y };
            if b.x.raw <= m.x.raw {
                (
                    Some(
                        Trapezoid {
                            top: a.y,
                            bottom: b.y,
                            left: Edge { top: a, bottom: b },
                            right: Edge { top: a, bottom: m },
                        },
                    ),
                    Some(
                        Trapezoid {
                            top: b.y,
                            bottom: c.y,
                            left: Edge { top: b, bottom: c },
                            right: Edge { top: m, bottom: c },
                        },
                    ),
                )
            } else {
                (
                    Some(
                        Trapezoid {
                            top: a.y,
                            bottom: b.y,
                            left: Edge { top: a, bottom: m },
                            right: Edge { top: a, bottom: b },
                        },
                    ),
                    Some(
                        Trapezoid {
                            top: b.y,
                            bottom: c.y,
                            left: Edge { top: m, bottom: c },
                            right: Edge { top: b, bottom: c },
                        },
                    ),
                )
            }
        }
    }

    /// The trapezoid's scan range on a canvas of the given height: rows
    /// `start ..= end` inclusive, which may be empty.
    pub fn row_bounds(&self, bh: u32) -> (r: (i64, i64))
        ensures
            r.0 == trap_row_start(*self),
            r.1 == trap_row_end(*self, bh as int),
    {
        let tc = self.top.ceil_i64();
        let start = if tc < 0 {
            0
        } else {
            tc
        };
        let bc = self.bottom.ceil_i64();
        let hm1 = (bh as i64) - 1;
        let end = (if bc < hm1 {
            bc
        } else {
            hm1
        }) - 1;
        (start, end)
    }
}

impl Scanline {
    /// The span of the trapezoid at integer row `y`.
    pub fn from_trapezoid(t: &Trapezoid, y: i32) -> (r: Scanline)
        ensures
            r == scanline_spec(*t, y as int),
    {
        let yf = Fx::from_i32(y);
        let lx = edge_x(&t.left, yf);
        let rx = edge_x(&t.right, yf);
        Scanline {
            vertex: Vec2 { x: lx, y: yf },
            step: Vec2 { x: Fx::from_i32(1), y: Fx::from_raw(0) },
            width: rx.sub(lx),
            y,
        }
    }
}

/// The edge's horizontal position at the given row.
fn edge_x(e: &Edge, yf: Fx) -> (r: Fx)
    ensures
        r.v() == edge_x_spec(*e, yf.v()),
{
    e.top.x.add(e.bottom.x.sub(e.top.x).mul(yf.sub(e.top.y)).div(e.bottom.y.sub(e.top.y)))
}

} // verus!
