//! Units of measure and rounding.
//!
//! Every quantity is an integer count of a fixed unit:
//!
//! | quantity       | unit                               |
//! |----------------|------------------------------------|
//! | altitude       | micrometre                         |
//! | width          | micrometre                         |
//! | radius         | millimetre                         |
//! | time           | microsecond                        |
//! | velocity       | picometre per second               |
//! | air speed      | millimetre per second              |
//! | acceleration   | picometre per second squared       |
//! | mass           | gram                               |
//! | gravity        | femtonewton, as an exact quotient  |
//! | drag           | drag unit, 5e-30 newton            |
//! | Stokes drag    | piconewton                         |
//! | volume         | cubic millimetre                   |
//! | air density    | microgram per cubic metre          |
//! | viscosity      | nanopascal second                  |
//! | pressure ratio | parts per billion                  |
//!
//! The state of a fall is kept in fine units (micrometre, picometre per
//! second) so that the small increments of a short time step are not lost.
//! Gravity reads the distance from the centre of the Earth in millimetres,
//! and drag the speed through the air in millimetres per second, each
//! rounded toward the coarser unit.
//!
//! The two forces of the fall lose nothing to rounding. Gravity is a
//! quotient and comes with its remainder; drag is a product and comes in a
//! unit so small that the product is a whole number. The one rounding of
//! each is that of the acceleration which it gives.

use vstd::arithmetic::div_mod::{
    lemma_div_is_ordered, lemma_div_multiples_vanish, lemma_fundamental_div_mod,
    lemma_fundamental_div_mod_converse,
};
use vstd::prelude::*;

verus! {

/// One metre, in micrometres.
pub const METRE: i64 = 1_000_000;

/// One kilometre, in micrometres.
pub const KILOMETRE: i64 = 1_000_000_000;

/// One second, in microseconds.
pub const SECOND: i64 = 1_000_000;

/// One day, in microseconds.
pub const DAY: i64 = 86_400_000_000;

/// One kilogram, in grams.
pub const KILOGRAM: i64 = 1_000;

/// One metre per second, in picometres per second.
pub const METRE_PER_SECOND: i64 = 1_000_000_000_000;

/// One metre per second squared, in picometres per second squared.
pub const METRE_PER_SECOND_SQUARED: i64 = 1_000_000_000_000;

/// One kilogram per cubic metre, in micrograms per cubic metre.
pub const KILOGRAM_PER_CUBIC_METRE: u64 = 1_000_000_000;

/// The number pi, 3.141592653589793, as `PI_NUM / PI_DEN`.
pub const PI_NUM: u128 = 3_141_592_653_589_793;

/// See [`PI_NUM`].
pub const PI_DEN: u128 = 1_000_000_000_000_000;

/// The quotient `x / d` rounded toward zero.
pub open spec fn toward_zero(x: int, d: int) -> int {
    if x >= 0 {
        x / d
    } else {
        -((-x) / d)
    }
}

/// The magnitude of `x`.
pub open spec fn magnitude(x: int) -> int {
    if x >= 0 {
        x
    } else {
        -x
    }
}

/// Rounding toward zero never grows a magnitude and keeps the sign.
pub proof fn lemma_toward_zero_bounds(x: int, d: int)
    requires
        d > 0,
    ensures
        magnitude(toward_zero(x, d)) == magnitude(x) / d,
        magnitude(toward_zero(x, d)) <= magnitude(x),
        x >= 0 ==> toward_zero(x, d) >= 0,
        x <= 0 ==> toward_zero(x, d) <= 0,
        toward_zero(-x, d) == -toward_zero(x, d),
{
    let m = magnitude(x);
    assert(0 <= m / d <= m) by (nonlinear_arith)
        requires
            m >= 0,
            d > 0,
    ;
}

/// Rounding toward zero keeps the order of two numbers.
pub proof fn lemma_toward_zero_ordered(x: int, y: int, d: int)
    requires
        x <= y,
        d > 0,
    ensures
        toward_zero(x, d) <= toward_zero(y, d),
{
    if x >= 0 {
        lemma_div_is_ordered(x, y, d);
    } else if y < 0 {
        lemma_div_is_ordered(-y, -x, d);
    } else {
        lemma_toward_zero_bounds(x, d);
        lemma_toward_zero_bounds(y, d);
    }
}

/// The quotient of `x` by `d`, rounded toward zero.
pub(crate) fn div_toward_zero(x: i128, d: i128) -> (q: i128)
    requires
        d > 0,
        x > i128::MIN,
    ensures
        q == toward_zero(x as int, d as int),
{
    if x >= 0 {
        x / d
    } else {
        let m: i128 = -x;
        let p: i128 = m / d;
        -p
    }
}

/// The quotient and the remainder of `a * b` by `d`, where the product may
/// leave 128 bits; `None` when the quotient does not fit in 128 bits.
pub(crate) fn mul_div(a: u128, b: u128, d: u128) -> (out: Option<(u128, u128)>)
    requires
        d > 0,
    ensures
        out.is_some() <==> (a * b) / (d as int) <= u128::MAX,
        out matches Some(pair) ==> pair.0 == (a * b) / (d as int) && pair.1 == (a * b) % (
        d as int),
{
    proof {
        assert(a * b >= 0) by (nonlinear_arith)
            requires
                a >= 0,
                b >= 0,
        ;
    }
    match a.checked_mul(b) {
        Some(product) => {
            return Some((product / d, product % d));
        },
        None => {},
    }
    // `step` is `a` times the power of two of the present bit of `b`, held
    // as a quotient and a remainder by `d`; so is the sum over the bits of
    // `b` that are done.
    let mut step_q: u128 = a / d;
    let mut step_r: u128 = a % d;
    let mut rest: u128 = b;
    let mut q: u128 = 0;
    let mut r: u128 = 0;
    let ghost whole = a * b;
    proof {
        lemma_fundamental_div_mod(a as int, d as int);
        assert(d * step_q == step_q * d) by (nonlinear_arith);
        assert(a * b == (step_q * d + step_r) * rest + q * d + r) by (nonlinear_arith)
            requires
                a == step_q * d + step_r,
                rest == b,
                q == 0,
                r == 0,
        ;
    }
    while rest > 0
        invariant
            d > 0,
            step_r < d,
            r < d,
            whole == a * b,
            whole == (step_q * d + step_r) * rest + q * d + r,
        decreases rest,
    {
        let ghost term = step_q * d + step_r;
        let half: u128 = rest / 2;
        if rest % 2 == 1 {
            let carry: u128 = if r >= d - step_r {
                1
            } else {
                0
            };
            let sum_r: u128 = if carry == 1 {
                r - (d - step_r)
            } else {
                r + step_r
            };
            proof {
                assert(whole == term * (2 * half) + (q + step_q + carry) * d + sum_r)
                    by (nonlinear_arith)
                    requires
                        whole == term * rest + q * d + r,
                        rest == 2 * half + 1,
                        term == step_q * d + step_r,
                        r + step_r == carry * d + sum_r,
                ;
                assert(term * (2 * half) >= 0) by (nonlinear_arith)
                    requires
                        term >= 0,
                        half >= 0,
                ;
                assert(term >= 0) by (nonlinear_arith)
                    requires
                        term == step_q * d + step_r,
                        step_q >= 0,
                        d > 0,
                        step_r >= 0,
                ;
                lemma_quotient_at_least(whole, d as int, q + step_q + carry);
            }
            q = match q.checked_add(step_q) {
                Some(x) => match x.checked_add(carry) {
                    Some(y) => y,
                    None => {
                        return None;
                    },
                },
                None => {
                    return None;
                },
            };
            r = sum_r;
        } else {
            proof {
                assert(whole == term * (2 * half) + q * d + r) by (nonlinear_arith)
                    requires
                        whole == term * rest + q * d + r,
                        rest == 2 * half,
                ;
            }
        }
        rest = half;
        if rest > 0 {
            let carry: u128 = if step_r >= d - step_r {
                1
            } else {
                0
            };
            let double_r: u128 = if carry == 1 {
                step_r - (d - step_r)
            } else {
                step_r + step_r
            };
            proof {
                assert(term * (2 * half) == ((2 * step_q + carry) * d + double_r) * half)
                    by (nonlinear_arith)
                    requires
                        term == step_q * d + step_r,
                        step_r + step_r == carry * d + double_r,
                ;
                assert(((2 * step_q + carry) * d + double_r) * half >= (2 * step_q + carry) * d)
                    by (nonlinear_arith)
                    requires
                        half >= 1,
                        step_q >= 0,
                        carry >= 0,
                        d > 0,
                        double_r >= 0,
                ;
                assert(q * d + r >= 0) by (nonlinear_arith)
                    requires
                        q >= 0,
                        d > 0,
                        r >= 0,
                ;
                lemma_quotient_at_least(whole, d as int, 2 * step_q + carry);
            }
            step_q = match step_q.checked_mul(2) {
                Some(x) => match x.checked_add(carry) {
                    Some(y) => y,
                    None => {
                        return None;
                    },
                },
                None => {
                    return None;
                },
            };
            step_r = double_r;
        } else {
            proof {
                assert(term * (2 * half) == (step_q * d + step_r) * rest) by (nonlinear_arith)
                    requires
                        half == 0,
                        rest == 0,
                ;
            }
        }
    }
    proof {
        assert(whole == q * d + r) by (nonlinear_arith)
            requires
                whole == (step_q * d + step_r) * rest + q * d + r,
                rest == 0,
        ;
        lemma_fundamental_div_mod_converse(whole, d as int, q as int, r as int);
    }
    Some((q, r))
}

/// A number that is at least `n` times `d` has a quotient by `d` of at least `n`.
pub proof fn lemma_quotient_at_least(x: int, d: int, n: int)
    requires
        d > 0,
        x >= n * d,
    ensures
        x / d >= n,
{
    lemma_div_is_ordered(n * d, x, d);
    lemma_div_multiples_vanish(n, d);
    assert(n * d == d * n) by (nonlinear_arith);
}

/// The product of two signed 64-bit values, which always fits in 128 bits.
pub(crate) fn wide_product(a: i64, b: i64) -> (p: i128)
    ensures
        p == a * b,
        -0x4000_0000_0000_0000_0000_0000_0000_0000 <= p <= 0x4000_0000_0000_0000_0000_0000_0000_0000,
{
    proof {
        assert(-0x4000_0000_0000_0000_0000_0000_0000_0000 <= a * b
            <= 0x4000_0000_0000_0000_0000_0000_0000_0000) by (nonlinear_arith)
            requires
                -0x8000_0000_0000_0000 <= a <= 0x8000_0000_0000_0000,
                -0x8000_0000_0000_0000 <= b <= 0x8000_0000_0000_0000,
        ;
    }
    (a as i128) * (b as i128)
}

/// The magnitude of a signed 64-bit value.
pub(crate) fn magnitude_of(x: i64) -> (m: u64)
    ensures
        m == magnitude(x as int),
{
    if x >= 0 {
        x as u64
    } else {
        (-(x as i128)) as u64
    }
}

} // verus!
