//! Whole numbers as a number type.
//!
//! Sums, differences and products are exact modulo two to the power 64.
//! Quotients, square roots, sines and cosines drop the fraction, so they
//! are exact wherever the true result is a whole number.

use crate::scalar::Scalar;
use vstd::prelude::*;

verus! {

/// The `i64` that is congruent to `x` modulo two to the power 64.
#[verifier::opaque]
pub open spec fn wrap(x: int) -> i64 {
    let m = x % 0x1_0000_0000_0000_0000;
    if m > i64::MAX {
        (m - 0x1_0000_0000_0000_0000) as i64
    } else {
        m as i64
    }
}

/// The distance of `x` from zero.
pub open spec fn magnitude(x: int) -> int {
    if x < 0 {
        -x
    } else {
        x
    }
}

/// The quotient of `a` by `b`, rounded towards zero; zero where `b` is zero.
pub open spec fn quotient(a: int, b: int) -> int {
    if b == 0 {
        0
    } else if (a < 0) != (b < 0) {
        -(magnitude(a) / magnitude(b))
    } else {
        magnitude(a) / magnitude(b)
    }
}

/// `r` is the largest integer whose square is at most `x`.
pub open spec fn is_floor_sqrt(x: int, r: int) -> bool {
    0 <= r && r * r <= x < (r + 1) * (r + 1)
}

/// The integer part of the square root of `x`; zero where `x` is negative.
pub open spec fn floor_sqrt(x: int) -> int {
    if x < 0 {
        0
    } else {
        choose|r: int| is_floor_sqrt(x, r)
    }
}

/// At most one integer is the floor of a square root.
pub proof fn floor_sqrt_unique(x: int, r: int, s: int)
    requires
        is_floor_sqrt(x, r),
        is_floor_sqrt(x, s),
    ensures
        r == s,
{
    if r < s {
        assert((r + 1) * (r + 1) <= s * s) by (nonlinear_arith)
            requires
                0 <= r + 1 <= s,
        ;
    } else if s < r {
        assert((s + 1) * (s + 1) <= r * r) by (nonlinear_arith)
            requires
                0 <= s + 1 <= r,
        ;
    }
}

/// The integer part of the sine of a whole number of degrees.
pub open spec fn whole_sine(degrees: int) -> int {
    let turn = degrees % 360;
    if turn == 90 {
        1
    } else if turn == 270 {
        -1
    } else {
        0
    }
}

/// The integer part of the cosine of a whole number of degrees.
pub open spec fn whole_cosine(degrees: int) -> int {
    let turn = degrees % 360;
    if turn == 0 {
        1
    } else if turn == 180 {
        -1
    } else {
        0
    }
}

/// Where in the turn an angle lies: a number of degrees from 0 to 359.
fn turn_of(degrees: i64) -> (turn: i64)
    ensures
        turn == degrees as int % 360,
{
    let m: i64 = degrees % 360;
    if m < 0 {
        m + 360
    } else {
        m
    }
}

/// The distance of `x` from zero, which may be one more than `i64` holds.
fn magnitude_of(x: i64) -> (m: u64)
    ensures
        m == magnitude(x as int),
{
    if x == i64::MIN {
        9223372036854775808
    } else if x < 0 {
        (-x) as u64
    } else {
        x as u64
    }
}

/// The floor of the square root, found by halving the range it lies in.
fn integer_sqrt(x: i64) -> (r: i64)
    requires
        x >= 0,
    ensures
        is_floor_sqrt(x as int, r as int),
{
    let mut low: i64 = 0;
    let mut high: i64 = 3037000500;
    assert(x < 3037000500 * 3037000500);
    assert(0 * 0 <= x);
    while high - low > 1
        invariant
            0 <= low < high <= 3037000500,
            low * low <= x < high * high,
        decreases high - low,
    {
        let middle: i64 = low + (high - low) / 2;
        assert(middle * middle <= 3037000499 * 3037000499) by (nonlinear_arith)
            requires
                0 <= middle <= 3037000499,
        ;
        if middle * middle <= x {
            low = middle;
        } else {
            high = middle;
        }
    }
    low
}

impl Scalar for i64 {
    open spec fn from_u16_spec(v: u16) -> i64 {
        v as i64
    }

    fn from_u16(v: u16) -> (r: i64) {
        v as i64
    }

    open spec fn to_u16_spec(self) -> u16 {
        if self < 0 {
            0
        } else if self > u16::MAX {
            u16::MAX
        } else {
            self as u16
        }
    }

    fn to_u16(self) -> (r: u16) {
        if self < 0 {
            0
        } else if self > 65535 {
            65535
        } else {
            self as u16
        }
    }

    open spec fn to_u8_spec(self) -> u8 {
        if self < 0 {
            0
        } else if self > u8::MAX {
            u8::MAX
        } else {
            self as u8
        }
    }

    fn to_u8(self) -> (r: u8) {
        if self < 0 {
            0
        } else if self > 255 {
            255
        } else {
            self as u8
        }
    }

    open spec fn epsilon_spec() -> i64 {
        0
    }

    fn epsilon() -> (r: i64) {
        0
    }

    open spec fn add_spec(self, rhs: i64) -> i64 {
        wrap(self + rhs)
    }

    fn add(self, rhs: i64) -> (r: i64) {
        reveal(wrap);
        self.wrapping_add(rhs)
    }

    open spec fn sub_spec(self, rhs: i64) -> i64 {
        wrap(self - rhs)
    }

    fn sub(self, rhs: i64) -> (r: i64) {
        reveal(wrap);
        self.wrapping_sub(rhs)
    }

    open spec fn mul_spec(self, rhs: i64) -> i64 {
        wrap(self * rhs)
    }

    fn mul(self, rhs: i64) -> (r: i64) {
        reveal(wrap);
        self.wrapping_mul(rhs)
    }

    open spec fn div_spec(self, rhs: i64) -> i64 {
        wrap(quotient(self as int, rhs as int))
    }

    fn div(self, rhs: i64) -> (r: i64) {
        reveal(wrap);
        if rhs == 0 {
            return 0;
        }
        let dividend: u64 = magnitude_of(self);
        let divisor: u64 = magnitude_of(rhs);
        let q: u64 = dividend / divisor;
        assert(q <= dividend) by (nonlinear_arith)
            requires
                q == dividend / divisor,
                divisor >= 1,
        ;
        if q >= 9223372036854775808 {
            i64::MIN
        } else if (self < 0) != (rhs < 0) {
            -(q as i64)
        } else {
            q as i64
        }
    }

    open spec fn sqrt_spec(self) -> i64 {
        floor_sqrt(self as int) as i64
    }

    fn sqrt(self) -> (r: i64) {
        if self < 0 {
            0
        } else {
            let r: i64 = integer_sqrt(self);
            proof {
                floor_sqrt_unique(self as int, r as int, floor_sqrt(self as int));
            }
            r
        }
    }

    open spec fn sin_degrees_spec(self) -> i64 {
        whole_sine(self as int) as i64
    }

    fn sin_degrees(self) -> (r: i64) {
        let turn: i64 = turn_of(self);
        if turn == 90 {
            1
        } else if turn == 270 {
            -1
        } else {
            0
        }
    }

    open spec fn cos_degrees_spec(self) -> i64 {
        whole_cosine(self as int) as i64
    }

    fn cos_degrees(self) -> (r: i64) {
        let turn: i64 = turn_of(self);
        if turn == 0 {
            1
        } else if turn == 180 {
            -1
        } else {
            0
        }
    }

    open spec fn less_spec(self, rhs: i64) -> bool {
        self < rhs
    }

    fn less(self, rhs: i64) -> (r: bool) {
        self < rhs
    }

    open spec fn less_eq_spec(self, rhs: i64) -> bool {
        self <= rhs
    }

    fn less_eq(self, rhs: i64) -> (r: bool) {
        self <= rhs
    }

    open spec fn lesser_spec(self, rhs: i64) -> i64 {
        if rhs < self {
            rhs
        } else {
            self
        }
    }

    fn lesser(self, rhs: i64) -> (r: i64) {
        if rhs < self {
            rhs
        } else {
            self
        }
    }

    open spec fn greater_spec(self, rhs: i64) -> i64 {
        if rhs > self {
            rhs
        } else {
            self
        }
    }

    fn greater(self, rhs: i64) -> (r: i64) {
        if rhs > self {
            rhs
        } else {
            self
        }
    }
}

/// An integer that an `i64` holds is its own wrapped value.
pub proof fn wrap_in_range(x: int)
    requires
        i64::MIN <= x <= i64::MAX,
    ensures
        wrap(x) == x,
{
    reveal(wrap);
}

/// Zero and one are neutral, and minus one negates.
pub proof fn neutral_elements(a: i64)
    ensures
        a.add_spec(0) == a,
        0i64.add_spec(a) == a,
        a.sub_spec(0) == a,
        a.mul_spec(1) == a,
        1i64.mul_spec(a) == a,
        a.mul_spec(0) == 0,
        0i64.mul_spec(a) == 0,
        a.mul_spec(-1i64) == 0i64.sub_spec(a),
        (-1i64).mul_spec(a) == 0i64.sub_spec(a),
        0i64.sub_spec(0i64.sub_spec(a)) == a,
{
    reveal(wrap);
}

/// Adding a number and taking it away again gives back the first number.
pub proof fn add_then_sub_cancels(a: i64, b: i64)
    ensures
        a.add_spec(b).sub_spec(b) == a,
{
    reveal(wrap);
}

/// A difference changes sign when its terms change places.
pub proof fn sub_anticommutes(p: i64, q: i64)
    ensures
        p.sub_spec(q) == 0i64.sub_spec(q.sub_spec(p)),
{
    reveal(wrap);
}

/// A product does not depend on the order of its factors.
pub proof fn mul_commutes(a: i64, b: i64)
    ensures
        a.mul_spec(b) == b.mul_spec(a),
{
    assert(a * b == b * a) by (nonlinear_arith);
}

} // verus!
