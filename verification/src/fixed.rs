//! Fixed-point scalar arithmetic.
//!
//! A scalar is a count of `1/SCALE` scene units held in an `i128`. All
//! operations round toward zero, and every operation's result is pinned
//! exactly by the spec functions below, so geometric code built on top is a
//! deterministic function of its inputs.

use vstd::prelude::*;
use vstd::arithmetic::mul::lemma_mul_upper_bound;
use vstd::arithmetic::div_mod::lemma_fundamental_div_mod;
use vstd::arithmetic::div_mod::lemma_div_is_ordered;
use vstd::arithmetic::div_mod::lemma_div_pos_is_pos;

verus! {

/// Number of raw steps in one scene unit.
pub const SCALE: i128 = 10000;

/// Largest magnitude accepted as the left operand of a product.
pub const MUL_LEFT_CAP: i128 = 10_000_000_000_000_000_000_000_000_000;

/// Largest magnitude accepted as the right operand of a product.
pub const MUL_RIGHT_CAP: i128 = 10_000_000_000;

/// Largest magnitude accepted as an operand of a sum or difference.
pub const ADD_CAP: i128 = 50_000_000_000_000_000_000_000_000_000_000_000_000;

pub open spec fn mag(a: int) -> int {
    if a >= 0 {
        a
    } else {
        -a
    }
}

/// Truncating (round-toward-zero) division; the semantics of the executable
/// quotients below. `b` must not be zero.
pub open spec fn tdiv(a: int, b: int) -> int {
    if (a >= 0) == (b >= 0) {
        mag(a) / mag(b)
    } else {
        -(mag(a) / mag(b))
    }
}

/// The fixed-point product: `(a * b) / SCALE`, truncated toward zero.
pub open spec fn mul_fx(a: int, b: int) -> int {
    tdiv(a * b, SCALE as int)
}

/// The fixed-point quotient: `(a * SCALE) / b`, truncated toward zero.
pub open spec fn div_fx(a: int, b: int) -> int {
    tdiv(a * (SCALE as int), b)
}

proof fn lemma_mag_mul(a: int, b: int)
    ensures
        mag(a * b) == mag(a) * mag(b),
{
    if a >= 0 {
        if b >= 0 {
            assert(a * b >= 0) by (nonlinear_arith)
                requires a >= 0 && b >= 0;
        } else {
            assert(a * b <= 0 && a * (-b) == -(a * b)) by (nonlinear_arith)
                requires a >= 0 && b < 0;
        }
    } else {
        if b >= 0 {
            assert(a * b <= 0 && (-a) * b == -(a * b)) by (nonlinear_arith)
                requires a < 0 && b >= 0;
        } else {
            assert(a * b >= 0 && (-a) * (-b) == a * b) by (nonlinear_arith)
                requires a < 0 && b < 0;
        }
    }
}

/// The magnitude of a truncating quotient is the quotient of the magnitudes.
pub proof fn lemma_tdiv_mag(a: int, b: int)
    requires
        b != 0,
    ensures
        mag(tdiv(a, b)) == mag(a) / mag(b),
{
    lemma_div_pos_is_pos(mag(a), mag(b));
}

/// Bound on a fixed-point product from bounds on its operands.
pub proof fn lemma_mul_fx_le(a: int, b: int, aa: int, bb: int)
    requires
        mag(a) <= aa,
        mag(b) <= bb,
    ensures
        mag(mul_fx(a, b)) <= (aa * bb) / (SCALE as int),
        mag(mul_fx(a, b)) * (SCALE as int) <= aa * bb,
{
    lemma_mag_mul(a, b);
    lemma_tdiv_mag(a * b, SCALE as int);
    lemma_mul_upper_bound(mag(a), aa, mag(b), bb);
    lemma_div_is_ordered(mag(a * b), aa * bb, SCALE as int);
    lemma_fundamental_div_mod(aa * bb, SCALE as int);
    assert((aa * bb) % (SCALE as int) >= 0) by (nonlinear_arith)
        requires aa * bb >= 0 && SCALE as int == 10000;
}

/// Bound on a fixed-point quotient from a bound on its numerator.
pub proof fn lemma_div_fx_le(a: int, b: int, aa: int)
    requires
        mag(a) <= aa,
        b != 0,
    ensures
        mag(div_fx(a, b)) <= aa * (SCALE as int),
{
    lemma_mag_mul(a, SCALE as int);
    lemma_tdiv_mag(a * (SCALE as int), b);
    assert(mag(a * (SCALE as int)) / mag(b) <= mag(a) * (SCALE as int)) by {
        lemma_div_is_ordered(0, mag(a * (SCALE as int)), mag(b));
        lemma_fundamental_div_mod(mag(a * (SCALE as int)), mag(b));
        let q = mag(a * (SCALE as int)) / mag(b);
        assert(q <= q * mag(b)) by (nonlinear_arith)
            requires q >= 0 && mag(b) >= 1;
        assert(mag(b) * q == q * mag(b)) by (nonlinear_arith);
        assert(mag(a * (SCALE as int)) % mag(b) >= 0) by (nonlinear_arith)
            requires mag(a * (SCALE as int)) >= 0 && mag(b) >= 1;
    };
    lemma_mul_upper_bound(mag(a), aa, SCALE as int, SCALE as int);
}

/// Truncating division is monotone in the numerator for a positive divisor.
pub proof fn lemma_tdiv_mono(a1: int, a2: int, b: int)
    requires
        a1 <= a2,
        b > 0,
    ensures
        tdiv(a1, b) <= tdiv(a2, b),
{
    if a1 >= 0 {
        lemma_div_is_ordered(a1, a2, b);
    } else if a2 < 0 {
        lemma_div_is_ordered(-a2, -a1, b);
    } else {
        lemma_div_pos_is_pos(-a1, b);
        lemma_div_pos_is_pos(a2, b);
    }
}

/// Flipping the divisor's sign flips the truncating quotient.
pub proof fn lemma_tdiv_neg_divisor(a: int, b: int)
    requires
        b != 0,
    ensures
        tdiv(a, -b) == -tdiv(a, b),
{
}

/// Monotonicity of the fixed-point quotient in its numerator, for either
/// sign of the divisor.
pub proof fn lemma_div_fx_mono(a1: int, a2: int, b: int)
    requires
        a1 <= a2,
        b != 0,
    ensures
        b > 0 ==> div_fx(a1, b) <= div_fx(a2, b),
        b < 0 ==> div_fx(a2, b) <= div_fx(a1, b),
{
    if b > 0 {
        lemma_tdiv_mono(a1 * (SCALE as int), a2 * (SCALE as int), b);
    } else {
        lemma_tdiv_mono(a1 * (SCALE as int), a2 * (SCALE as int), -b);
        lemma_tdiv_neg_divisor(a1 * (SCALE as int), b);
        lemma_tdiv_neg_divisor(a2 * (SCALE as int), b);
    }
}

/// A fixed-point scalar: `raw / SCALE` scene units.
#[derive(Clone, Copy, PartialEq, Eq, Structural, Debug)]
pub struct Fx {
    pub raw: i128,
}

fn tdiv_exec(a: i128, b: i128) -> (r: i128)
    requires
        b != 0,
        -(i128::MAX as int) <= a as int,
        -(i128::MAX as int) <= b as int,
    ensures
        r as int == tdiv(a as int, b as int),
{
    let neg: bool = (a < 0) != (b < 0);
    let ua: u128 = if a < 0 { (-a) as u128 } else { a as u128 };
    let ub: u128 = if b < 0 { (-b) as u128 } else { b as u128 };
    let q: u128 = ua / ub;
    proof {
        assert(ua as int == mag(a as int));
        assert(ub as int == mag(b as int));
        lemma_div_pos_is_pos(ua as int, ub as int);
        lemma_div_is_ordered(ua as int, i128::MAX as int, ub as int);
        assert((i128::MAX as int) / (ub as int) <= i128::MAX as int) by {
            lemma_fundamental_div_mod(i128::MAX as int, ub as int);
            let qq = (i128::MAX as int) / (ub as int);
            assert(qq <= qq * (ub as int)) by (nonlinear_arith)
                requires qq >= 0 && ub as int >= 1;
            assert((ub as int) * qq == qq * (ub as int)) by (nonlinear_arith);
            assert((i128::MAX as int) % (ub as int) >= 0) by (nonlinear_arith)
                requires i128::MAX as int >= 0 && ub as int >= 1;
        };
    }
    let qi: i128 = q as i128;
    if neg {
        -qi
    } else {
        qi
    }
}

impl Fx {
    pub fn from_raw(raw: i128) -> (r: Fx)
        ensures
            r.raw == raw,
    {
        Fx { raw }
    }

    pub fn zero() -> (r: Fx)
        ensures
            r.raw == 0,
    {
        Fx { raw: 0 }
    }

    pub fn one() -> (r: Fx)
        ensures
            r.raw == SCALE,
    {
        Fx { raw: SCALE }
    }

    pub fn plus(self, o: Fx) -> (r: Fx)
        requires
            mag(self.raw as int) <= ADD_CAP as int,
            mag(o.raw as int) <= ADD_CAP as int,
        ensures
            r.raw as int == self.raw as int + o.raw as int,
    {
        Fx { raw: self.raw + o.raw }
    }

    pub fn minus(self, o: Fx) -> (r: Fx)
        requires
            mag(self.raw as int) <= ADD_CAP as int,
            mag(o.raw as int) <= ADD_CAP as int,
        ensures
            r.raw as int == self.raw as int - o.raw as int,
    {
        Fx { raw: self.raw - o.raw }
    }

    pub fn neg(self) -> (r: Fx)
        requires
            mag(self.raw as int) <= ADD_CAP as int,
        ensures
            r.raw as int == -(self.raw as int),
    {
        Fx { raw: -self.raw }
    }

    /// Fixed-point product, truncated toward zero. The larger operand must
    /// stand on the left: the caps keep the widened product inside `i128`.
    pub fn times(self, o: Fx) -> (r: Fx)
        requires
            mag(self.raw as int) <= MUL_LEFT_CAP as int,
            mag(o.raw as int) <= MUL_RIGHT_CAP as int,
        ensures
            r.raw as int == mul_fx(self.raw as int, o.raw as int),
            mag(r.raw as int) * (SCALE as int) <= mag(self.raw as int) * mag(o.raw as int),
    {
        proof {
            lemma_mag_mul(self.raw as int, o.raw as int);
            lemma_mul_upper_bound(
                mag(self.raw as int), MUL_LEFT_CAP as int,
                mag(o.raw as int), MUL_RIGHT_CAP as int,
            );
            lemma_mul_fx_le(
                self.raw as int, o.raw as int,
                mag(self.raw as int), mag(o.raw as int),
            );
        }
        let p: i128 = self.raw * o.raw;
        Fx { raw: tdiv_exec(p, SCALE) }
    }

    /// Fixed-point quotient, truncated toward zero. `o` must not be zero.
    pub fn over(self, o: Fx) -> (r: Fx)
        requires
            o.raw != 0,
            mag(self.raw as int) <= MUL_LEFT_CAP as int,
            mag(o.raw as int) <= MUL_LEFT_CAP as int,
        ensures
            r.raw as int == div_fx(self.raw as int, o.raw as int),
            mag(r.raw as int) <= mag(self.raw as int) * (SCALE as int),
    {
        proof {
            lemma_mag_mul(self.raw as int, SCALE as int);
            lemma_mul_upper_bound(
                mag(self.raw as int), MUL_LEFT_CAP as int,
                SCALE as int, SCALE as int,
            );
            lemma_div_fx_le(self.raw as int, o.raw as int, mag(self.raw as int));
        }
        let p: i128 = self.raw * SCALE;
        Fx { raw: tdiv_exec(p, o.raw) }
    }

    pub fn min(self, o: Fx) -> (r: Fx)
        ensures
            r.raw == if self.raw <= o.raw { self.raw } else { o.raw },
    {
        if self.raw <= o.raw {
            self
        } else {
            o
        }
    }

    pub fn max(self, o: Fx) -> (r: Fx)
        ensures
            r.raw == if self.raw >= o.raw { self.raw } else { o.raw },
    {
        if self.raw >= o.raw {
            self
        } else {
            o
        }
    }
}

} // verus!
