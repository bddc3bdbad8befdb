//! Truncating (round-toward-zero) integer division and remainder, and
//! powers of ten, as used by the scaled fixed-point arithmetic.
//!
//! Rust's `/` and `%` on signed integers truncate toward zero, while the
//! ghost operators on `int` are Euclidean; `tdiv` and `trem` spell out the
//! truncating semantics so contracts can speak about what the executable
//! code computes.

use vstd::prelude::*;

verus! {

use vstd::arithmetic::div_mod::{
    lemma_div_multiples_vanish,
    lemma_div_nonincreasing,
    lemma_div_pos_is_pos,
    lemma_div_is_ordered_by_denominator,
    lemma_basic_div,
    lemma_small_mod,
};
use vstd::arithmetic::mul::lemma_mul_strictly_positive;

/// Truncating division: the quotient Rust's `/` yields on signed integers.
pub open spec fn tdiv(a: int, b: int) -> int {
    if a == 0 {
        0
    } else if a > 0 && b > 0 {
        a / b
    } else if a < 0 && b < 0 {
        (a * -1) / (b * -1)
    } else if a < 0 {
        ((a * -1) / b) * -1
    } else {
        (a / (b * -1)) * -1
    }
}

/// Truncating remainder: what Rust's `%` yields on signed integers.
pub open spec fn trem(a: int, b: int) -> int {
    if a == 0 {
        0
    } else if a > 0 && b > 0 {
        a % b
    } else if a < 0 && b < 0 {
        (a * -1) % (b * -1) * -1
    } else if a < 0 {
        (a * -1) % b * -1
    } else {
        a % (b * -1)
    }
}

/// Mathematical 10^e.
pub open spec fn pow10(e: nat) -> int
    decreases e,
{
    if e == 0 {
        1
    } else {
        10 * pow10((e - 1) as nat)
    }
}

pub proof fn lemma_pow10_pos(e: nat)
    ensures
        pow10(e) >= 1,
    decreases e,
{
    if e > 0 {
        lemma_pow10_pos((e - 1) as nat);
    }
}

pub proof fn lemma_pow10_mono(e1: nat, e2: nat)
    requires
        e1 <= e2,
    ensures
        pow10(e1) <= pow10(e2),
    decreases e2,
{
    if e1 < e2 {
        lemma_pow10_mono(e1, (e2 - 1) as nat);
        lemma_pow10_pos((e2 - 1) as nat);
    }
}

/// Dividing a multiple of `d` by `d` gives back the other factor, also
/// under truncating division.
pub proof fn lemma_tdiv_exact(x: int, d: int)
    requires
        d != 0,
    ensures
        tdiv(x * d, d) == x,
{
    if x == 0 {
        assert(x * d == 0);
    } else if x > 0 && d > 0 {
        lemma_mul_strictly_positive(x, d);
        lemma_div_multiples_vanish(x, d);
        assert(d * x == x * d) by (nonlinear_arith);
    } else if x > 0 && d < 0 {
        assert(x * d < 0) by (nonlinear_arith)
            requires
                x > 0,
                d < 0,
        ;
        assert(x * d * -1 == x * (d * -1)) by (nonlinear_arith);
        lemma_div_multiples_vanish(x, d * -1);
        assert((d * -1) * x == x * (d * -1)) by (nonlinear_arith);
    } else if x < 0 && d > 0 {
        assert(x * d < 0) by (nonlinear_arith)
            requires
                x < 0,
                d > 0,
        ;
        assert(x * d * -1 == (x * -1) * d) by (nonlinear_arith);
        lemma_div_multiples_vanish(x * -1, d);
        assert(d * (x * -1) == (x * -1) * d) by (nonlinear_arith);
    } else {
        assert(x < 0 && d < 0);
        assert(x * d > 0) by (nonlinear_arith)
            requires
                x < 0,
                d < 0,
        ;
        assert(x * d == (x * -1) * (d * -1)) by (nonlinear_arith);
        lemma_div_multiples_vanish(x * -1, d * -1);
        assert((d * -1) * (x * -1) == (x * -1) * (d * -1)) by (nonlinear_arith);
    }
}

/// The magnitude of a truncating quotient never exceeds the magnitude of
/// the dividend; with the one `i128::MIN / -1` case excluded, the quotient
/// of two `i128` values fits in `i128`.
pub proof fn lemma_tdiv_in_range(a: int, b: int)
    requires
        i128::MIN <= a <= i128::MAX,
        b != 0,
        !(a == i128::MIN && b == -1),
    ensures
        i128::MIN <= tdiv(a, b) <= i128::MAX,
{
    if a != 0 {
        let n: int = if a > 0 { a } else { a * -1 };
        let d: int = if b > 0 { b } else { b * -1 };
        lemma_div_pos_is_pos(n, d);
        lemma_div_nonincreasing(n, d);
        assert(0 <= n / d <= n);
        if tdiv(a, b) >= 0 {
            // The result is n / d up to the sign bookkeeping in tdiv.
            if a == i128::MIN && b < 0 {
                // n exceeds i128::MAX by one, but d >= 2 halves it.
                assert(d >= 2);
                lemma_div_is_ordered_by_denominator(n, 2, d);
                assert(n / d <= n / 2);
            }
        }
    }
}

/// The truncating remainder of `i128` values fits in `i128` whenever the
/// divisor is nonzero.
pub proof fn lemma_trem_in_range(a: int, b: int)
    requires
        i128::MIN <= a <= i128::MAX,
        i128::MIN <= b <= i128::MAX,
        b != 0,
    ensures
        i128::MIN <= trem(a, b) <= i128::MAX,
{
    if a != 0 {
        let n: int = if a > 0 { a } else { a * -1 };
        let d: int = if b > 0 { b } else { b * -1 };
        assert(0 <= n % d < d);
    }
}

/// Dividing by something strictly larger in magnitude truncates to zero
/// and leaves the whole dividend as remainder.
pub proof fn lemma_tdiv_small(a: int, b: int)
    requires
        b > 0,
        -b < a < b,
    ensures
        tdiv(a, b) == 0,
        trem(a, b) == a,
{
    if a > 0 {
        lemma_basic_div(a, b);
        lemma_small_mod(a as nat, b as nat);
    } else if a < 0 {
        lemma_basic_div(a * -1, b);
        lemma_small_mod((a * -1) as nat, b as nat);
    }
}

/// Truncating division on `i128`; the excluded inputs are exactly those on
/// which Rust's `/` would panic or overflow.
pub fn div_i128(a: i128, b: i128) -> (r: i128)
    requires
        b != 0,
        !(a == i128::MIN && b == -1),
    ensures
        r as int == tdiv(a as int, b as int),
{
    proof {
        lemma_tdiv_in_range(a as int, b as int);
    }
    a.checked_div(b).unwrap()
}

/// Truncating remainder on `i128`; `i128::MIN % -1` is 0 for Rust's
/// `checked_rem`, but it reports overflow there, so that case is excluded.
pub fn rem_i128(a: i128, b: i128) -> (r: i128)
    requires
        b != 0,
        !(a == i128::MIN && b == -1),
    ensures
        r as int == trem(a as int, b as int),
{
    proof {
        lemma_trem_in_range(a as int, b as int);
    }
    a.checked_rem(b).unwrap()
}

/// 10^e as an `i128`, or `None` if it does not fit.
pub fn pow10_i128(e: u8) -> (r: Option<i128>)
    ensures
        match r {
            Some(p) => p as int == pow10(e as nat) && pow10(e as nat) <= i128::MAX,
            None => pow10(e as nat) > i128::MAX,
        },
{
    let mut acc: i128 = 1;
    let mut i: u8 = 0;
    while i < e
        invariant
            i <= e,
            acc as int == pow10(i as nat),
            1 <= acc,
        decreases e - i,
    {
        match acc.checked_mul(10) {
            Some(next) => {
                acc = next;
                i = i + 1;
            }
            None => {
                proof {
                    assert(pow10((i + 1) as nat) == 10 * pow10(i as nat));
                    lemma_pow10_mono((i + 1) as nat, e as nat);
                }
                return None;
            }
        }
    }
    Some(acc)
}

} // verus!
