//! The scaled fixed-point amount type.

use vstd::prelude::*;

verus! {

use crate::arith::{tdiv, div_i128, lemma_tdiv_exact, lemma_tdiv_in_range};
use crate::AMOUNT_UNIT;

/// Holds an amount of currency. The `i128` it holds is expressed in
/// fractions of a unit: a stored value of [`AMOUNT_UNIT`] makes one unit.
///
/// Its view is the stored scaled integer.
#[derive(Clone, Copy, Debug, PartialEq, Eq)]
pub struct CurrencyAmount(i128);

impl View for CurrencyAmount {
    type V = int;

    closed spec fn view(&self) -> int {
        self.0 as int
    }
}

impl CurrencyAmount {
    /// An amount from an already-scaled integer.
    pub(crate) fn from_raw(raw: i128) -> (r: Self)
        ensures
            r@ == raw as int,
    {
        CurrencyAmount(raw)
    }

    /// The scaled integer itself.
    pub fn raw(self) -> (r: i128)
        ensures
            r as int == self@,
    {
        self.0
    }

    pub fn with_unit(unit: i128) -> (r: Self)
        requires
            i128::MIN <= unit * AMOUNT_UNIT <= i128::MAX,
        ensures
            r@ == unit * AMOUNT_UNIT,
    {
        CurrencyAmount(unit * AMOUNT_UNIT)
    }

    pub fn with_tenths(tenths: i128) -> (r: Self)
        requires
            i128::MIN <= tenths * AMOUNT_UNIT <= i128::MAX,
        ensures
            r@ == tenths * 100_000,
    {
        proof {
            lemma_tdiv_exact(tenths * 100_000, 10);
        }
        CurrencyAmount(div_i128(tenths * AMOUNT_UNIT, 10))
    }

    pub fn with_cents(cents: i128) -> (r: Self)
        requires
            i128::MIN <= cents * AMOUNT_UNIT <= i128::MAX,
        ensures
            r@ == cents * 10_000,
    {
        proof {
            lemma_tdiv_exact(cents * 10_000, 100);
        }
        CurrencyAmount(div_i128(cents * AMOUNT_UNIT, 100))
    }

    pub fn with_thousands(thousands: i128) -> (r: Self)
        requires
            i128::MIN <= thousands * AMOUNT_UNIT <= i128::MAX,
        ensures
            r@ == thousands * 1_000,
    {
        proof {
            lemma_tdiv_exact(thousands * 1_000, 1000);
        }
        CurrencyAmount(div_i128(thousands * AMOUNT_UNIT, 1000))
    }

    /// The whole-unit count, truncated toward zero.
    pub fn into_unit(self) -> (r: Self)
        ensures
            r@ == tdiv(self@, AMOUNT_UNIT as int),
    {
        CurrencyAmount(div_i128(self.0, AMOUNT_UNIT))
    }

    pub fn into_tenths(self) -> (r: Self)
        requires
            i128::MIN <= self@ * 10 <= i128::MAX,
        ensures
            r@ == tdiv(self@ * 10, AMOUNT_UNIT as int),
    {
        CurrencyAmount(div_i128(self.0 * 10, AMOUNT_UNIT))
    }

    pub fn into_cents(self) -> (r: Self)
        requires
            i128::MIN <= self@ * 100 <= i128::MAX,
        ensures
            r@ == tdiv(self@ * 100, AMOUNT_UNIT as int),
    {
        CurrencyAmount(div_i128(self.0 * 100, AMOUNT_UNIT))
    }

    pub fn into_thousands(self) -> (r: Self)
        requires
            i128::MIN <= self@ * 1000 <= i128::MAX,
        ensures
            r@ == tdiv(self@ * 1000, AMOUNT_UNIT as int),
    {
        CurrencyAmount(div_i128(self.0 * 1000, AMOUNT_UNIT))
    }

    /// Equality after truncation to whole units: both sides divided by
    /// [`AMOUNT_UNIT`], truncating, then compared. Kept apart from `==`
    /// on purpose: two amounts differing only below one whole unit
    /// compare equal here, an explicit precision-loss semantic.
    pub fn unit_eq(&self, other: &Self) -> (r: bool)
        ensures
            r == (tdiv(self@, AMOUNT_UNIT as int) == tdiv(other@, AMOUNT_UNIT as int)),
    {
        div_i128(self.0, AMOUNT_UNIT) == div_i128(other.0, AMOUNT_UNIT)
    }

    /// Exact sum of the scaled values.
    pub fn add(self, other: Self) -> (r: Self)
        requires
            i128::MIN <= self@ + other@ <= i128::MAX,
        ensures
            r@ == self@ + other@,
    {
        CurrencyAmount(self.0 + other.0)
    }

    /// Exact difference of the scaled values.
    pub fn sub(self, other: Self) -> (r: Self)
        requires
            i128::MIN <= self@ - other@ <= i128::MAX,
        ensures
            r@ == self@ - other@,
    {
        CurrencyAmount(self.0 - other.0)
    }

    /// Plain product of the scaled values; callers rescale where a factor
    /// itself stands for a ratio.
    pub fn mul(self, other: Self) -> (r: Self)
        requires
            i128::MIN <= self@ * other@ <= i128::MAX,
        ensures
            r@ == self@ * other@,
    {
        CurrencyAmount(self.0 * other.0)
    }

    /// Plain truncating quotient of the scaled values.
    pub fn div(self, other: Self) -> (r: Self)
        requires
            other@ != 0,
            !(self@ == i128::MIN && other@ == -1),
        ensures
            r@ == tdiv(self@, other@),
    {
        CurrencyAmount(div_i128(self.0, other.0))
    }
}

impl From<i128> for CurrencyAmount {
    fn from(i: i128) -> (r: Self)
        ensures
            r@ == i as int,
    {
        CurrencyAmount(i)
    }
}

impl vstd::std_specs::convert::FromSpecImpl<i128> for CurrencyAmount {
    closed spec fn obeys_from_spec() -> bool {
        true
    }

    closed spec fn from_spec(i: i128) -> Self {
        CurrencyAmount(i)
    }
}

impl Default for CurrencyAmount {
    fn default() -> (r: Self)
        ensures
            r@ == 0,
    {
        CurrencyAmount(0)
    }
}

} // verus!
