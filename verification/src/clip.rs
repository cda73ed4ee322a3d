//! Cohen-Sutherland outcode clipping of a segment against an axis-aligned
//! rectangle `[min, max]`, boundary-inclusive.
//!
//! The result is a deterministic function of the inputs, stated by
//! `clip_spec`: repeated calls on the same segment can never disagree.

use vstd::prelude::*;
use crate::fixed::{fx_add, fx_sub, fx_mul, fx_div};
use crate::math::Vec2;

verus! {

pub const INSIDE: u8 = 0;
pub const LEFT: u8 = 1;
pub const RIGHT: u8 = 2;
pub const BOTTOM: u8 = 4;
pub const TOP: u8 = 8;

/// Bound on the number of clipping steps. Each step pins one endpoint to
/// one rectangle side; a segment that is still undecided after this many
/// steps is degenerate rounding noise and is treated as outside, so that
/// every call terminates.
pub const CLIP_STEPS: u32 = 32;

/// A point as its pair of raw fixed-point coordinates.
pub open spec fn pt_view(p: Vec2) -> (int, int) {
    (p.x.v(), p.y.v())
}

/// Horizontal outcode: `LEFT` when strictly left of the rectangle,
/// `RIGHT` when strictly right of it, else inside.
pub open spec fn oc_x(px: int, lox: int, hix: int) -> int {
    if px < lox {
        1
    } else if px > hix {
        2
    } else {
        0
    }
}

/// Vertical outcode: `BOTTOM` when strictly below `min.y`, `TOP` when
/// strictly above `max.y`, else inside.
pub open spec fn oc_y(py: int, loy: int, hiy: int) -> int {
    if py < loy {
        4
    } else if py > hiy {
        8
    } else {
        0
    }
}

/// The 4-bit outcode of a point: a set bit per violated side. A point
/// exactly on the boundary violates nothing.
pub open spec fn outcode_spec(p: (int, int), lo: (int, int), hi: (int, int)) -> int {
    oc_x(p.0, lo.0, hi.0) + oc_y(p.1, lo.1, hi.1)
}

/// Two outcodes share a set bit exactly when they agree on a nonzero
/// axis code, since the two axes occupy disjoint bit ranges.
pub open spec fn share_side(a: (int, int), b: (int, int), lo: (int, int), hi: (int, int)) -> bool {
    ||| (oc_x(a.0, lo.0, hi.0) == oc_x(b.0, lo.0, hi.0) && oc_x(a.0, lo.0, hi.0) != 0)
    ||| (oc_y(a.1, lo.1, hi.1) == oc_y(b.1, lo.1, hi.1) && oc_y(a.1, lo.1, hi.1) != 0)
}

/// One clipping step: the point with the numerically larger outcode is
/// moved onto the violated side, trying `TOP`, `BOTTOM`, `RIGHT`, `LEFT`
/// in that priority. The horizontal intersections base at the original
/// first endpoint's x (`p1x`) while all deltas use the current points.
pub open spec fn clip_spec_rec(
    p1x: int,
    a: (int, int),
    b: (int, int),
    lo: (int, int),
    hi: (int, int),
    fuel: nat,
) -> Option<((int, int), (int, int))>
    decreases fuel,
{
    let oca = outcode_spec(a, lo, hi);
    let ocb = outcode_spec(b, lo, hi);
    if share_side(a, b, lo, hi) {
        None
    } else if oca == 0 && ocb == 0 {
        Some((a, b))
    } else if fuel == 0 {
        None
    } else {
        let first = !(ocb > oca);
        let cx = if ocb > oca {
            oc_x(b.0, lo.0, hi.0)
        } else {
            oc_x(a.0, lo.0, hi.0)
        };
        let cy = if ocb > oca {
            oc_y(b.1, lo.1, hi.1)
        } else {
            oc_y(a.1, lo.1, hi.1)
        };
        let p = if cy == 8 {
            (fx_add(p1x, fx_div(fx_mul(fx_sub(b.0, a.0), fx_sub(hi.1, a.1)), fx_sub(b.1, a.1))), hi.1)
        } else if cy == 4 {
            (fx_add(p1x, fx_div(fx_mul(fx_sub(b.0, a.0), fx_sub(lo.1, a.1)), fx_sub(b.1, a.1))), lo.1)
        } else if cx == 2 {
            (hi.0, fx_add(a.1, fx_div(fx_mul(fx_sub(b.1, a.1), fx_sub(hi.0, a.0)), fx_sub(b.0, a.0))))
        } else if cx == 1 {
            (lo.0, fx_add(a.1, fx_div(fx_mul(fx_sub(b.1, a.1), fx_sub(lo.0, a.0)), fx_sub(b.0, a.0))))
        } else {
            (0, 0)
        };
        if first {
            clip_spec_rec(p1x, p, b, lo, hi, (fuel - 1) as nat)
        } else {
            clip_spec_rec(p1x, a, p, lo, hi, (fuel - 1) as nat)
        }
    }
}

/// The whole clip as a function of the segment and the rectangle.
pub open spec fn clip_spec(p1: Vec2, p2: Vec2, lo: Vec2, hi: Vec2) -> Option<
    ((int, int), (int, int)),
> {
    clip_spec_rec(
        p1.x.v(),
        pt_view(p1),
        pt_view(p2),
        pt_view(lo),
        pt_view(hi),
        CLIP_STEPS as nat,
    )
}

/// The clip result's raw coordinates.
pub open spec fn clip_view(r: Option<(Vec2, Vec2)>) -> Option<((int, int), (int, int))> {
    match r {
        None => None,
        Some((a, b)) => Some((pt_view(a), pt_view(b))),
    }
}

/// A segment whose endpoints both lie inside the rectangle
/// (boundary included) is returned unchanged.
pub proof fn lemma_clip_accepts_inside(
    p1x: int,
    a: (int, int),
    b: (int, int),
    lo: (int, int),
    hi: (int, int),
    fuel: nat,
)
    requires
        outcode_spec(a, lo, hi) == 0,
        outcode_spec(b, lo, hi) == 0,
    ensures
        clip_spec_rec(p1x, a, b, lo, hi, fuel) == Some((a, b)),
{
}

/// A segment whose endpoints violate a common side is rejected.
pub proof fn lemma_clip_rejects_shared_side(
    p1x: int,
    a: (int, int),
    b: (int, int),
    lo: (int, int),
    hi: (int, int),
    fuel: nat,
)
    requires
        share_side(a, b, lo, hi),
    ensures
        clip_spec_rec(p1x, a, b, lo, hi, fuel) == None::<((int, int), (int, int))>,
{
}

/// Both endpoints strictly beyond one and the same side (here: both left
/// of the rectangle) violate that side together.
pub proof fn lemma_both_left_share_side(a: (int, int), b: (int, int), lo: (int, int), hi: (int, int))
    requires
        a.0 < lo.0,
        b.0 < lo.0,
    ensures
        share_side(a, b, lo, hi),
{
}

/// A point exactly on `min` or `max`, or anywhere between them, has
/// outcode 0: the rectangle's boundary counts as inside.
pub proof fn lemma_outcode_boundary_inclusive(p: (int, int), lo: (int, int), hi: (int, int))
    requires
        lo.0 <= p.0 <= hi.0,
        lo.1 <= p.1 <= hi.1,
    ensures
        outcode_spec(p, lo, hi) == 0,
{
}

/// Trivial accept and trivial reject exclude each other: no segment
/// satisfies both conditions, so no input can be both kept and dropped.
pub proof fn lemma_trivial_cases_disjoint(a: (int, int), b: (int, int), lo: (int, int), hi: (int, int))
    ensures
        !(share_side(a, b, lo, hi) && outcode_spec(a, lo, hi) == 0 && outcode_spec(b, lo, hi)
            == 0),
{
}

/// A segment from an inside point `a` to a point `b` beyond the right
/// side alone is clipped in one step: the crossing endpoint lands exactly
/// on `x == max.x`, at the interpolated row `iy`. Stated for the inputs
/// where the truncated intersection stays within the rectangle's rows;
/// rounding at a corner can otherwise push it out and force further steps.
pub proof fn lemma_clip_crossing_right(
    p1x: int,
    a: (int, int),
    b: (int, int),
    lo: (int, int),
    hi: (int, int),
    fuel: nat,
)
    requires
        outcode_spec(a, lo, hi) == 0,
        oc_x(b.0, lo.0, hi.0) == 2,
        oc_y(b.1, lo.1, hi.1) == 0,
        lo.0 <= hi.0,
        fuel >= 2,
        lo.1 <= fx_add(a.1, fx_div(fx_mul(fx_sub(b.1, a.1), fx_sub(hi.0, a.0)), fx_sub(b.0, a.0)))
            <= hi.1,
    ensures
        clip_spec_rec(p1x, a, b, lo, hi, fuel) == Some(
            (a, (hi.0, fx_add(a.1, fx_div(fx_mul(fx_sub(b.1, a.1), fx_sub(hi.0, a.0)), fx_sub(b.0, a.0))))),
        ),
{
    let iy = fx_add(a.1, fx_div(fx_mul(fx_sub(b.1, a.1), fx_sub(hi.0, a.0)), fx_sub(b.0, a.0)));
    let p = (hi.0, iy);
    assert(clip_spec_rec(p1x, a, b, lo, hi, fuel) == clip_spec_rec(
        p1x,
        a,
        p,
        lo,
        hi,
        (fuel - 1) as nat,
    ));
    assert(clip_spec_rec(p1x, a, p, lo, hi, (fuel - 1) as nat) == Some((a, p)));
}

/// A segment from an inside point `a` to a point `b` above the top side
/// alone is clipped in one step: the crossing endpoint lands exactly on
/// `y == max.y`, at a column interpolated from the original first
/// endpoint's x (`p1x == a.0`, since the inside endpoint is never moved).
/// Stated for the inputs where the truncated intersection stays within
/// the rectangle's columns.
pub proof fn lemma_clip_crossing_top(
    a: (int, int),
    b: (int, int),
    lo: (int, int),
    hi: (int, int),
    fuel: nat,
)
    requires
        outcode_spec(a, lo, hi) == 0,
        oc_x(b.0, lo.0, hi.0) == 0,
        oc_y(b.1, lo.1, hi.1) == 8,
        lo.1 <= hi.1,
        fuel >= 2,
        lo.0 <= fx_add(a.0, fx_div(fx_mul(fx_sub(b.0, a.0), fx_sub(hi.1, a.1)), fx_sub(b.1, a.1)))
            <= hi.0,
    ensures
        clip_spec_rec(a.0, a, b, lo, hi, fuel) == Some(
            (a, (fx_add(a.0, fx_div(fx_mul(fx_sub(b.0, a.0), fx_sub(hi.1, a.1)), fx_sub(b.1, a.1))), hi.1)),
        ),
{
    let ix = fx_add(a.0, fx_div(fx_mul(fx_sub(b.0, a.0), fx_sub(hi.1, a.1)), fx_sub(b.1, a.1)));
    let p = (ix, hi.1);
    assert(clip_spec_rec(a.0, a, b, lo, hi, fuel) == clip_spec_rec(
        a.0,
        a,
        p,
        lo,
        hi,
        (fuel - 1) as nat,
    ));
    assert(clip_spec_rec(a.0, a, p, lo, hi, (fuel - 1) as nat) == Some((a, p)));
}

/// Whatever the clip returns, it returns endpoints inside the rectangle.
pub proof fn lemma_clip_some_inside(
    p1x: int,
    a: (int, int),
    b: (int, int),
    lo: (int, int),
    hi: (int, int),
    fuel: nat,
)
    ensures
        match clip_spec_rec(p1x, a, b, lo, hi, fuel) {
            Some((qa, qb)) => outcode_spec(qa, lo, hi) == 0 && outcode_spec(qb, lo, hi) == 0,
            None => true,
        },
    decreases fuel,
{
    let oca = outcode_spec(a, lo, hi);
    let ocb = outcode_spec(b, lo, hi);
    if share_side(a, b, lo, hi) {
    } else if oca == 0 && ocb == 0 {
    } else if fuel == 0 {
    } else {
        // unfold one step and recurse on the smaller fuel
        let first = !(ocb > oca);
        let cx = if ocb > oca {
            oc_x(b.0, lo.0, hi.0)
        } else {
            oc_x(a.0, lo.0, hi.0)
        };
        let cy = if ocb > oca {
            oc_y(b.1, lo.1, hi.1)
        } else {
            oc_y(a.1, lo.1, hi.1)
        };
        let p = if cy == 8 {
            (fx_add(p1x, fx_div(fx_mul(fx_sub(b.0, a.0), fx_sub(hi.1, a.1)), fx_sub(b.1, a.1))), hi.1)
        } else if cy == 4 {
            (fx_add(p1x, fx_div(fx_mul(fx_sub(b.0, a.0), fx_sub(lo.1, a.1)), fx_sub(b.1, a.1))), lo.1)
        } else if cx == 2 {
            (hi.0, fx_add(a.1, fx_div(fx_mul(fx_sub(b.1, a.1), fx_sub(hi.0, a.0)), fx_sub(b.0, a.0))))
        } else if cx == 1 {
            (lo.0, fx_add(a.1, fx_div(fx_mul(fx_sub(b.1, a.1), fx_sub(lo.0, a.0)), fx_sub(b.0, a.0))))
        } else {
            (0, 0)
        };
        if first {
            lemma_clip_some_inside(p1x, p, b, lo, hi, (fuel - 1) as nat);
        } else {
            lemma_clip_some_inside(p1x, a, p, lo, hi, (fuel - 1) as nat);
        }
    }
}

/// The two axis outcodes of a point.
fn outcode_parts(p: &Vec2, rect_min: &Vec2, rect_max: &Vec2) -> (r: (u8, u8))
    ensures
        r.0 as int == oc_x(p.x.v(), rect_min.x.v(), rect_max.x.v()),
        r.1 as int == oc_y(p.y.v(), rect_min.y.v(), rect_max.y.v()),
{
    let xc: u8 = if p.x.raw < rect_min.x.raw {
        LEFT
    } else if p.x.raw > rect_max.x.raw {
        RIGHT
    } else {
        INSIDE
    };
    let yc: u8 = if p.y.raw < rect_min.y.raw {
        BOTTOM
    } else if p.y.raw > rect_max.y.raw {
        TOP
    } else {
        INSIDE
    };
    (xc, yc)
}

/// The 4-bit outcode of a point against the rectangle `[min, max]`.
pub fn compute_outcode(p: &Vec2, rect_min: &Vec2, rect_max: &Vec2) -> (r: u8)
    ensures
        r as int == outcode_spec(pt_view(*p), pt_view(*rect_min), pt_view(*rect_max)),
{
    let (xc, yc) = outcode_parts(p, rect_min, rect_max);
    xc + yc
}

/// Clip the segment `p1 .. p2` against the rectangle `[rect_min, rect_max]`
/// (boundary-inclusive): `None` when the segment lies entirely outside one
/// side, else the segment clipped to the rectangle.
pub fn cohen_sutherland_line_clip(
    p1: &Vec2,
    p2: &Vec2,
    rect_min: &Vec2,
    rect_max: &Vec2,
) -> (r: Option<(Vec2, Vec2)>)
    ensures
        clip_view(r) == clip_spec(*p1, *p2, *rect_min, *rect_max),
        outcode_spec(pt_view(*p1), pt_view(*rect_min), pt_view(*rect_max)) == 0 && outcode_spec(
            pt_view(*p2),
            pt_view(*rect_min),
            pt_view(*rect_max),
        ) == 0 ==> r == Some((*p1, *p2)),
        share_side(pt_view(*p1), pt_view(*p2), pt_view(*rect_min), pt_view(*rect_max)) ==> r
            is None,
        match r {
            Some((q1, q2)) => outcode_spec(pt_view(q1), pt_view(*rect_min), pt_view(*rect_max))
                == 0 && outcode_spec(pt_view(q2), pt_view(*rect_min), pt_view(*rect_max)) == 0,
            None => true,
        },
        outcode_spec(pt_view(*p1), pt_view(*rect_min), pt_view(*rect_max)) == 0 ==> (match r {
            Some((q1, _)) => q1 == *p1,
            None => true,
        }),
        outcode_spec(pt_view(*p2), pt_view(*rect_min), pt_view(*rect_max)) == 0 ==> (match r {
            Some((_, q2)) => q2 == *p2,
            None => true,
        }),
{
    let ghost lo = pt_view(*rect_min);
    let ghost hi = pt_view(*rect_max);
    let ghost target = clip_spec(*p1, *p2, *rect_min, *rect_max);
    proof {
        lemma_clip_some_inside(p1.x.v(), pt_view(*p1), pt_view(*p2), lo, hi, CLIP_STEPS as nat);
        if share_side(pt_view(*p1), pt_view(*p2), lo, hi) {
            lemma_clip_rejects_shared_side(
                p1.x.v(),
                pt_view(*p1),
                pt_view(*p2),
                lo,
                hi,
                CLIP_STEPS as nat,
            );
        }
        if outcode_spec(pt_view(*p1), lo, hi) == 0 && outcode_spec(pt_view(*p2), lo, hi) == 0 {
            lemma_clip_accepts_inside(
                p1.x.v(),
                pt_view(*p1),
                pt_view(*p2),
                lo,
                hi,
                CLIP_STEPS as nat,
            );
        }
    }
    let mut pt1 = *p1;
    let mut pt2 = *p2;
    let parts1 = outcode_parts(&pt1, rect_min, rect_max);
    let mut xc1 = parts1.0;
    let mut yc1 = parts1.1;
    let parts2 = outcode_parts(&pt2, rect_min, rect_max);
    let mut xc2 = parts2.0;
    let mut yc2 = parts2.1;
    let mut fuel: u32 = CLIP_STEPS;

    loop
        invariant
            xc1 as int == oc_x(pt1.x.v(), lo.0, hi.0),
            yc1 as int == oc_y(pt1.y.v(), lo.1, hi.1),
            xc2 as int == oc_x(pt2.x.v(), lo.0, hi.0),
            yc2 as int == oc_y(pt2.y.v(), lo.1, hi.1),
            lo == pt_view(*rect_min),
            hi == pt_view(*rect_max),
            clip_spec_rec(p1.x.v(), pt_view(pt1), pt_view(pt2), lo, hi, fuel as nat) == target,
            target == clip_spec(*p1, *p2, *rect_min, *rect_max),
            share_side(pt_view(*p1), pt_view(*p2), lo, hi) ==> target is None,
            outcode_spec(pt_view(*p1), lo, hi) == 0 && outcode_spec(pt_view(*p2), lo, hi) == 0
                ==> target == Some((pt_view(*p1), pt_view(*p2))),
            match target {
                Some((qa, qb)) => outcode_spec(qa, lo, hi) == 0 && outcode_spec(qb, lo, hi) == 0,
                None => true,
            },
            outcode_spec(pt_view(*p1), lo, hi) == 0 ==> pt1 == *p1,
            outcode_spec(pt_view(*p2), lo, hi) == 0 ==> pt2 == *p2,
        decreases fuel,
    {
        if (xc1 != 0 && xc1 == xc2) || (yc1 != 0 && yc1 == yc2) {
            proof {
                assert(share_side(pt_view(pt1), pt_view(pt2), lo, hi));
                assert(target is None);
            }
            return None;
        } else if xc1 == 0 && yc1 == 0 && xc2 == 0 && yc2 == 0 {
            proof {
                assert(target == Some((pt_view(pt1), pt_view(pt2))));
                if outcode_spec(pt_view(*p1), lo, hi) == 0 && outcode_spec(pt_view(*p2), lo, hi)
                    == 0 {
                    assert(pt_view(pt1) == pt_view(*p1));
                    assert(pt1.x.raw == p1.x.raw && pt1.y.raw == p1.y.raw);
                    assert(pt1 == *p1);
                    assert(pt2 == *p2);
                }
            }
            return Some((pt1, pt2));
        }

        if fuel == 0 {
            return None;
        }

        let oc1: u8 = xc1 + yc1;
        let oc2: u8 = xc2 + yc2;
        let pick_second = oc2 > oc1;
        let cx: u8 = if pick_second {
            xc2
        } else {
            xc1
        };
        let cy: u8 = if pick_second {
            yc2
        } else {
            yc1
        };

        let p: Vec2 = if cy == TOP {
            Vec2 {
                x: p1.x.add(
                    pt2.x.sub(pt1.x).mul(rect_max.y.sub(pt1.y)).div(pt2.y.sub(pt1.y)),
                ),
                y: rect_max.y,
            }
        } else if cy == BOTTOM {
            Vec2 {
                x: p1.x.add(
                    pt2.x.sub(pt1.x).mul(rect_min.y.sub(pt1.y)).div(pt2.y.sub(pt1.y)),
                ),
                y: rect_min.y,
            }
        } else if cx == RIGHT {
            Vec2 {
                x: rect_max.x,
                y: pt1.y.add(
                    pt2.y.sub(pt1.y).mul(rect_max.x.sub(pt1.x)).div(pt2.x.sub(pt1.x)),
                ),
            }
        } else {
            proof {
                assert(cx == 1);
            }
            Vec2 {
                x: rect_min.x,
                y: pt1.y.add(
                    pt2.y.sub(pt1.y).mul(rect_min.x.sub(pt1.x)).div(pt2.x.sub(pt1.x)),
                ),
            }
        };

        if !pick_second {
            pt1 = p;
            let parts = outcode_parts(&pt1, rect_min, rect_max);
            xc1 = parts.0;
            yc1 = parts.1;
        } else {
            pt2 = p;
            let parts = outcode_parts(&pt2, rect_min, rect_max);
            xc2 = parts.0;
            yc2 = parts.1;
        }
        fuel = fuel - 1;
    }
}

} // verus!
