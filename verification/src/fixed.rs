//! A fixed-point scalar: the value is `raw / 65536`.
//!
//! All pipeline arithmetic saturates at the ends of the `i64` range instead
//! of overflowing, and division by zero saturates instead of faulting, so a
//! degenerate input degrades into wrong pixels, never into a crash.

use vstd::prelude::*;

verus! {

/// Number of raw units per whole unit.
pub const FX_ONE: i64 = 65536;

/// A fixed-point scalar holding `raw / 65536`.
#[derive(Clone, Copy, PartialEq, Eq, Debug)]
pub struct Fx {
    pub raw: i64,
}

/// Magnitude of an integer.
pub open spec fn abs_int(x: int) -> int {
    if x < 0 {
        -x
    } else {
        x
    }
}

/// Saturate an unbounded integer into the `i64` range.
pub open spec fn clamp64(x: int) -> int {
    if x > i64::MAX as int {
        i64::MAX as int
    } else if x < i64::MIN as int {
        i64::MIN as int
    } else {
        x
    }
}

/// Saturate an unbounded integer into the `i32` range.
pub open spec fn clamp32(x: int) -> int {
    if x > i32::MAX as int {
        i32::MAX as int
    } else if x < i32::MIN as int {
        i32::MIN as int
    } else {
        x
    }
}

/// Division truncating toward zero, the rounding of a float-to-int cast.
pub open spec fn tdiv(n: int, d: int) -> int
    recommends
        d != 0,
{
    if (n < 0) == (d < 0) {
        abs_int(n) / abs_int(d)
    } else {
        -(abs_int(n) / abs_int(d))
    }
}

/// Division rounding up (toward positive infinity), for a positive divisor.
pub open spec fn ceil_div(n: int, d: int) -> int
    recommends
        d > 0,
{
    if n < 0 {
        -((-n) / d)
    } else if n % d == 0 {
        n / d
    } else {
        n / d + 1
    }
}

/// Saturating fixed-point addition over raw values.
pub open spec fn fx_add(a: int, b: int) -> int {
    clamp64(a + b)
}

/// Saturating fixed-point subtraction over raw values.
pub open spec fn fx_sub(a: int, b: int) -> int {
    clamp64(a - b)
}

/// Saturating fixed-point multiplication over raw values.
pub open spec fn fx_mul(a: int, b: int) -> int {
    clamp64(tdiv(a * b, 65536))
}

/// Saturating fixed-point division over raw values; a zero divisor
/// saturates to the end of the range on the side of the dividend's sign.
pub open spec fn fx_div(a: int, b: int) -> int {
    if b == 0 {
        if a >= 0 {
            i64::MAX as int
        } else {
            i64::MIN as int
        }
    } else {
        clamp64(tdiv(a * 65536, b))
    }
}

/// A nonnegative raw value below `m` whole units truncates to a whole
/// part below `m`.
pub proof fn lemma_tdiv_bound(n: int, m: int)
    requires
        0 <= n,
        n < m * 65536,
    ensures
        0 <= tdiv(n, 65536) < m,
{
    assert(tdiv(n, 65536) == n / 65536);
    assert(0int / 65536 == 0) by (nonlinear_arith);
    vstd::arithmetic::div_mod::lemma_div_is_ordered(0, n, 65536);
    vstd::arithmetic::div_mod::lemma_div_is_ordered(n, m * 65536 - 1, 65536);
    assert(m * 65536 - 1 == (m - 1) * 65536 + 65535) by (nonlinear_arith);
    vstd::arithmetic::div_mod::lemma_fundamental_div_mod_converse_div(
        m * 65536 - 1,
        65536,
        m - 1,
        65535,
    );
}

/// Product of two `i64` values stays within the `i128` range.
proof fn lemma_i64_mul_fits(a: int, b: int)
    requires
        i64::MIN as int <= a <= i64::MAX as int,
        i64::MIN as int <= b <= i64::MAX as int,
    ensures
        a * b > i128::MIN as int,
        a * b <= i128::MAX as int,
{
    assert(a * b > i128::MIN as int && a * b <= i128::MAX as int) by (nonlinear_arith)
        requires
            -0x8000_0000_0000_0000 <= a <= 0x7fff_ffff_ffff_ffff,
            -0x8000_0000_0000_0000 <= b <= 0x7fff_ffff_ffff_ffff,
    ;
}

/// Saturate an `i128` into the `i64` range.
fn clamp_to_i64(s: i128) -> (r: i64)
    ensures
        r as int == clamp64(s as int),
{
    if s > i64::MAX as i128 {
        i64::MAX
    } else if s < i64::MIN as i128 {
        i64::MIN
    } else {
        s as i64
    }
}

/// Truncating signed division on `i128`, computed over magnitudes.
fn tdiv_i128(n: i128, d: i128) -> (r: i128)
    requires
        d != 0,
        n > i128::MIN,
        d > i128::MIN,
    ensures
        r as int == tdiv(n as int, d as int),
{
    let nn: u128 = if n < 0 {
        (-n) as u128
    } else {
        n as u128
    };
    let dd: u128 = if d < 0 {
        (-d) as u128
    } else {
        d as u128
    };
    let q: u128 = nn / dd;
    proof {
        assert(nn as int == abs_int(n as int));
        assert(dd as int == abs_int(d as int));
        assert(q as int == abs_int(n as int) / abs_int(d as int));
        assert(q <= nn) by (nonlinear_arith)
            requires
                dd >= 1,
                q == nn / dd,
        ;
    }
    if (n < 0) != (d < 0) {
        -(q as i128)
    } else {
        q as i128
    }
}

impl Fx {
    /// The scalar's raw value, the mathematical carrier of every contract.
    pub open spec fn v(self) -> int {
        self.raw as int
    }

    /// Build a scalar from a whole number.
    pub fn from_i32(v: i32) -> (r: Fx)
        ensures
            r.v() == v * 65536,
    {
        Fx { raw: (v as i64) * FX_ONE }
    }

    /// Build a scalar from a raw fixed-point value.
    pub fn from_raw(raw: i64) -> (r: Fx)
        ensures
            r.v() == raw,
    {
        Fx { raw }
    }

    /// Saturating addition.
    pub fn add(self, o: Fx) -> (r: Fx)
        ensures
            r.v() == fx_add(self.v(), o.v()),
    {
        let s: i128 = (self.raw as i128) + (o.raw as i128);
        Fx { raw: clamp_to_i64(s) }
    }

    /// Saturating subtraction.
    pub fn sub(self, o: Fx) -> (r: Fx)
        ensures
            r.v() == fx_sub(self.v(), o.v()),
    {
        let s: i128 = (self.raw as i128) - (o.raw as i128);
        Fx { raw: clamp_to_i64(s) }
    }

    /// Saturating multiplication, truncating toward zero.
    pub fn mul(self, o: Fx) -> (r: Fx)
        ensures
            r.v() == fx_mul(self.v(), o.v()),
    {
        proof {
            lemma_i64_mul_fits(self.raw as int, o.raw as int);
        }
        let p: i128 = (self.raw as i128) * (o.raw as i128);
        let q: i128 = tdiv_i128(p, 65536);
        Fx { raw: clamp_to_i64(q) }
    }

    /// Saturating division, truncating toward zero; a zero divisor
    /// saturates to the end of the range on the dividend's side.
    pub fn div(self, o: Fx) -> (r: Fx)
        ensures
            r.v() == fx_div(self.v(), o.v()),
    {
        if o.raw == 0 {
            if self.raw >= 0 {
                Fx { raw: i64::MAX }
            } else {
                Fx { raw: i64::MIN }
            }
        } else {
            let n: i128 = (self.raw as i128) * 65536;
            let q: i128 = tdiv_i128(n, o.raw as i128);
            Fx { raw: clamp_to_i64(q) }
        }
    }

    /// Whole part, truncated toward zero and saturated into `i32`,
    /// the rounding of a float-to-int cast.
    pub fn to_i32_trunc(self) -> (r: i32)
        ensures
            r as int == clamp32(tdiv(self.v(), 65536)),
    {
        let q: i64 = if self.raw >= 0 {
            ((self.raw as u64) / 65536) as i64
        } else {
            let m: u128 = (-(self.raw as i128)) as u128;
            -((m / 65536) as i64)
        };
        if q > i32::MAX as i64 {
            i32::MAX
        } else if q < i32::MIN as i64 {
            i32::MIN
        } else {
            q as i32
        }
    }

    /// Smallest whole number at or above the value.
    pub fn ceil_i64(self) -> (r: i64)
        ensures
            r == ceil_div(self.v(), 65536),
    {
        if self.raw >= 0 {
            let u: u64 = self.raw as u64;
            let q: u64 = u / 65536;
            let rem: u64 = u % 65536;
            if rem == 0 {
                q as i64
            } else {
                (q as i64) + 1
            }
        } else {
            let m: u128 = (-(self.raw as i128)) as u128;
            -((m / 65536) as i64)
        }
    }
}

} // verus!
