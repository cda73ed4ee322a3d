//! Vector and matrix value types over the fixed-point scalar, with the
//! exact arithmetic of each operation stated in its contract.

use vstd::prelude::*;
use crate::fixed::{Fx, fx_add, fx_mul, fx_div};

verus! {

/// A 2D point or direction in screen space.
#[derive(Clone, Copy, PartialEq, Eq, Debug)]
pub struct Vec2 {
    pub x: Fx,
    pub y: Fx,
}

/// A 3D model-space point.
#[derive(Clone, Copy, PartialEq, Eq, Debug)]
pub struct Vec3 {
    pub x: Fx,
    pub y: Fx,
    pub z: Fx,
}

/// A homogeneous coordinate, or an RGBA color with one channel per lane.
#[derive(Clone, Copy, PartialEq, Eq, Debug)]
pub struct Vec4 {
    pub x: Fx,
    pub y: Fx,
    pub z: Fx,
    pub w: Fx,
}

/// A 4x4 matrix held as four rows.
#[derive(Clone, Copy, PartialEq, Eq, Debug)]
pub struct Mat4 {
    pub r0: Vec4,
    pub r1: Vec4,
    pub r2: Vec4,
    pub r3: Vec4,
}

impl Vec2 {
    pub fn new(x: Fx, y: Fx) -> (r: Vec2)
        ensures
            r == (Vec2 { x, y }),
    {
        Vec2 { x, y }
    }

    pub fn zero() -> (r: Vec2)
        ensures
            r.x.v() == 0 && r.y.v() == 0,
    {
        Vec2 { x: Fx { raw: 0 }, y: Fx { raw: 0 } }
    }

    /// Build a point from whole pixel coordinates.
    pub fn from_i32(x: i32, y: i32) -> (r: Vec2)
        ensures
            r.x.v() == x * 65536,
            r.y.v() == y * 65536,
    {
        Vec2 { x: Fx::from_i32(x), y: Fx::from_i32(y) }
    }
}

impl Vec3 {
    pub fn new(x: Fx, y: Fx, z: Fx) -> (r: Vec3)
        ensures
            r == (Vec3 { x, y, z }),
    {
        Vec3 { x, y, z }
    }

    /// Build a point from whole coordinates.
    pub fn from_i32(x: i32, y: i32, z: i32) -> (r: Vec3)
        ensures
            r.x.v() == x * 65536,
            r.y.v() == y * 65536,
            r.z.v() == z * 65536,
    {
        Vec3 { x: Fx::from_i32(x), y: Fx::from_i32(y), z: Fx::from_i32(z) }
    }
}

/// Every lane of the homogeneous coordinate divided by the scalar `s`.
pub open spec fn div_scalar_spec(v: Vec4, s: Fx) -> Vec4 {
    Vec4 {
        x: Fx { raw: fx_div(v.x.v(), s.v()) as i64 },
        y: Fx { raw: fx_div(v.y.v(), s.v()) as i64 },
        z: Fx { raw: fx_div(v.z.v(), s.v()) as i64 },
        w: Fx { raw: fx_div(v.w.v(), s.v()) as i64 },
    }
}

/// Dot product of two rows, accumulating left to right with
/// saturating fixed-point steps.
pub open spec fn dot4_spec(a: Vec4, b: Vec4) -> Fx {
    Fx {
        raw: fx_add(
            fx_add(
                fx_add(fx_mul(a.x.v(), b.x.v()), fx_mul(a.y.v(), b.y.v())),
                fx_mul(a.z.v(), b.z.v()),
            ),
            fx_mul(a.w.v(), b.w.v()),
        ) as i64,
    }
}

/// One column of a matrix, as a row vector.
pub open spec fn col_spec(m: Mat4, j: int) -> Vec4
    recommends
        0 <= j < 4,
{
    if j == 0 {
        Vec4 { x: m.r0.x, y: m.r1.x, z: m.r2.x, w: m.r3.x }
    } else if j == 1 {
        Vec4 { x: m.r0.y, y: m.r1.y, z: m.r2.y, w: m.r3.y }
    } else if j == 2 {
        Vec4 { x: m.r0.z, y: m.r1.z, z: m.r2.z, w: m.r3.z }
    } else {
        Vec4 { x: m.r0.w, y: m.r1.w, z: m.r2.w, w: m.r3.w }
    }
}

/// Matrix-vector product, row by row.
pub open spec fn mul_vec4_spec(m: Mat4, v: Vec4) -> Vec4 {
    Vec4 {
        x: dot4_spec(m.r0, v),
        y: dot4_spec(m.r1, v),
        z: dot4_spec(m.r2, v),
        w: dot4_spec(m.r3, v),
    }
}

/// Row of a matrix-matrix product.
pub open spec fn mul_row_spec(r: Vec4, b: Mat4) -> Vec4 {
    Vec4 {
        x: dot4_spec(r, col_spec(b, 0)),
        y: dot4_spec(r, col_spec(b, 1)),
        z: dot4_spec(r, col_spec(b, 2)),
        w: dot4_spec(r, col_spec(b, 3)),
    }
}

/// Matrix-matrix product.
pub open spec fn mul_mat4_spec(a: Mat4, b: Mat4) -> Mat4 {
    Mat4 {
        r0: mul_row_spec(a.r0, b),
        r1: mul_row_spec(a.r1, b),
        r2: mul_row_spec(a.r2, b),
        r3: mul_row_spec(a.r3, b),
    }
}

/// The identity matrix.
pub open spec fn mat4_identity() -> Mat4 {
    Mat4 {
        r0: Vec4 { x: Fx { raw: 65536 }, y: Fx { raw: 0 }, z: Fx { raw: 0 }, w: Fx { raw: 0 } },
        r1: Vec4 { x: Fx { raw: 0 }, y: Fx { raw: 65536 }, z: Fx { raw: 0 }, w: Fx { raw: 0 } },
        r2: Vec4 { x: Fx { raw: 0 }, y: Fx { raw: 0 }, z: Fx { raw: 65536 }, w: Fx { raw: 0 } },
        r3: Vec4 { x: Fx { raw: 0 }, y: Fx { raw: 0 }, z: Fx { raw: 0 }, w: Fx { raw: 65536 } },
    }
}

impl Vec4 {
    pub fn new(x: Fx, y: Fx, z: Fx, w: Fx) -> (r: Vec4)
        ensures
            r == (Vec4 { x, y, z, w }),
    {
        Vec4 { x, y, z, w }
    }

    /// Build a color or point from whole values.
    pub fn from_i32(x: i32, y: i32, z: i32, w: i32) -> (r: Vec4)
        ensures
            r.x.v() == x * 65536,
            r.y.v() == y * 65536,
            r.z.v() == z * 65536,
            r.w.v() == w * 65536,
    {
        Vec4 {
            x: Fx::from_i32(x),
            y: Fx::from_i32(y),
            z: Fx::from_i32(z),
            w: Fx::from_i32(w),
        }
    }

    /// Lift a 3D point into homogeneous form with the given last lane.
    pub fn from_vec3(v: &Vec3, w: Fx) -> (r: Vec4)
        ensures
            r == (Vec4 { x: v.x, y: v.y, z: v.z, w }),
    {
        Vec4 { x: v.x, y: v.y, z: v.z, w }
    }

    /// Divide every lane by the scalar `s` (the perspective divide when
    /// `s` is the coordinate's own last lane).
    pub fn div_scalar(&self, s: Fx) -> (r: Vec4)
        ensures
            r == div_scalar_spec(*self, s),
    {
        Vec4 { x: self.x.div(s), y: self.y.div(s), z: self.z.div(s), w: self.w.div(s) }
    }
}

/// Dot product of two rows.
fn dot4(a: &Vec4, b: &Vec4) -> (r: Fx)
    ensures
        r == dot4_spec(*a, *b),
{
    a.x.mul(b.x).add(a.y.mul(b.y)).add(a.z.mul(b.z)).add(a.w.mul(b.w))
}

impl Mat4 {
    pub fn identity() -> (r: Mat4)
        ensures
            r == mat4_identity(),
    {
        Mat4 {
            r0: Vec4 { x: Fx { raw: 65536 }, y: Fx { raw: 0 }, z: Fx { raw: 0 }, w: Fx { raw: 0 } },
            r1: Vec4 { x: Fx { raw: 0 }, y: Fx { raw: 65536 }, z: Fx { raw: 0 }, w: Fx { raw: 0 } },
            r2: Vec4 { x: Fx { raw: 0 }, y: Fx { raw: 0 }, z: Fx { raw: 65536 }, w: Fx { raw: 0 } },
            r3: Vec4 { x: Fx { raw: 0 }, y: Fx { raw: 0 }, z: Fx { raw: 0 }, w: Fx { raw: 65536 } },
        }
    }

    /// Build a matrix from its four rows.
    pub fn from_rows(r0: Vec4, r1: Vec4, r2: Vec4, r3: Vec4) -> (r: Mat4)
        ensures
            r == (Mat4 { r0, r1, r2, r3 }),
    {
        Mat4 { r0, r1, r2, r3 }
    }

    /// Matrix-vector product.
    pub fn mul_vec4(&self, v: &Vec4) -> (r: Vec4)
        ensures
            r == mul_vec4_spec(*self, *v),
    {
        Vec4 {
            x: dot4(&self.r0, v),
            y: dot4(&self.r1, v),
            z: dot4(&self.r2, v),
            w: dot4(&self.r3, v),
        }
    }

    /// Matrix-matrix product.
    pub fn mul_mat4(&self, o: &Mat4) -> (r: Mat4)
        ensures
            r == mul_mat4_spec(*self, *o),
    {
        let c0 = Vec4 { x: o.r0.x, y: o.r1.x, z: o.r2.x, w: o.r3.x };
        let c1 = Vec4 { x: o.r0.y, y: o.r1.y, z: o.r2.y, w: o.r3.y };
        let c2 = Vec4 { x: o.r0.z, y: o.r1.z, z: o.r2.z, w: o.r3.z };
        let c3 = Vec4 { x: o.r0.w, y: o.r1.w, z: o.r2.w, w: o.r3.w };
        Mat4 {
            r0: Vec4 {
                x: dot4(&self.r0, &c0),
                y: dot4(&self.r0, &c1),
                z: dot4(&self.r0, &c2),
                w: dot4(&self.r0, &c3),
            },
            r1: Vec4 {
                x: dot4(&self.r1, &c0),
                y: dot4(&self.r1, &c1),
                z: dot4(&self.r1, &c2),
                w: dot4(&self.r1, &c3),
            },
            r2: Vec4 {
                x: dot4(&self.r2, &c0),
                y: dot4(&self.r2, &c1),
                z: dot4(&self.r2, &c2),
                w: dot4(&self.r2, &c3),
            },
            r3: Vec4 {
                x: dot4(&self.r3, &c0),
                y: dot4(&self.r3, &c1),
                z: dot4(&self.r3, &c2),
                w: dot4(&self.r3, &c3),
            },
        }
    }
}

} // verus!
