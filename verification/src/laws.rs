//! Laws the library guarantees, stated over the same spec functions the
//! public contracts use and proved once for all inputs.

use vstd::prelude::*;

verus! {

use crate::arith::{tdiv, lemma_tdiv_exact};
use crate::currency::{CurrencyCode, Rates};
use crate::money::converted_amount;
use crate::ops::{Operation, eval};

/// Round trip at whole-unit precision: an amount built from a count of
/// units, read back as units, gives the same count.
/// `with_unit` stores `unit * 1_000_000`; `into_unit` divides by
/// `1_000_000`, truncating.
pub proof fn lemma_unit_round_trip(unit: int)
    ensures
        tdiv(unit * 1_000_000, 1_000_000) == unit,
{
    lemma_tdiv_exact(unit, 1_000_000);
}

/// Round trip at tenth precision: `with_tenths` stores
/// `tenths * 100_000`; `into_tenths` multiplies by 10 and divides by
/// `1_000_000`, truncating.
pub proof fn lemma_tenths_round_trip(tenths: int)
    ensures
        tdiv((tenths * 100_000) * 10, 1_000_000) == tenths,
{
    assert((tenths * 100_000) * 10 == tenths * 1_000_000);
    lemma_tdiv_exact(tenths, 1_000_000);
}

/// Round trip at cent precision: `with_cents` stores `cents * 10_000`;
/// `into_cents` multiplies by 100 and divides by `1_000_000`, truncating.
pub proof fn lemma_cents_round_trip(cents: int)
    ensures
        tdiv((cents * 10_000) * 100, 1_000_000) == cents,
{
    assert((cents * 10_000) * 100 == cents * 1_000_000);
    lemma_tdiv_exact(cents, 1_000_000);
}

/// Round trip at thousandth precision: `with_thousands` stores
/// `thousands * 1_000`; `into_thousands` multiplies by 1000 and divides
/// by `1_000_000`, truncating.
pub proof fn lemma_thousands_round_trip(thousands: int)
    ensures
        tdiv((thousands * 1_000) * 1000, 1_000_000) == thousands,
{
    assert((thousands * 1_000) * 1000 == thousands * 1_000_000);
    lemma_tdiv_exact(thousands, 1_000_000);
}

/// Self-conversion is the identity: `into_code` from a currency to that
/// same currency leaves the amount unchanged, for any nonzero worth the
/// table may give it. A zero worth divides the scaled product by zero,
/// so it is the one rate this law cannot speak about.
pub proof fn lemma_self_conversion_identity(amount: int, worth: int)
    requires
        worth != 0,
    ensures
        converted_amount(amount, worth, worth) == amount,
{
    lemma_tdiv_exact(amount, worth);
}

/// The currency of an addition is the left operand's, whatever the right
/// operand's currency: whenever `a + b` evaluates, it carries the same
/// code as `a` alone.
pub proof fn lemma_add_keeps_left_currency(a: Box<Operation>, b: Box<Operation>, rates: Rates)
    requires
        eval(Operation::Add(a, b), rates) is Ok,
    ensures
        eval(*a, rates) is Ok,
        eval(Operation::Add(a, b), rates)->Ok_0.1 == eval(*a, rates)->Ok_0.1,
{
}

/// Addition is consistent with subtraction: `(a + b) - b` evaluates to
/// exactly what `a` evaluates to, whenever the whole expression evaluates
/// at all. The two conversions of `b` into `a`'s currency truncate the
/// same way, so they cancel without any rounding slack.
pub proof fn lemma_add_sub_cancel(
    a: Box<Operation>,
    b: Box<Operation>,
    sum: Box<Operation>,
    rates: Rates,
)
    requires
        *sum == Operation::Add(a, b),
        eval(Operation::Sub(sum, b), rates) is Ok,
    ensures
        eval(Operation::Sub(sum, b), rates) == eval(*a, rates),
{
    let r_sum = eval(*sum, rates);
    let r_b = eval(*b, rates);
    assert(r_sum is Ok);
    assert(r_b is Ok);
    let r_a = eval(*a, rates);
    assert(r_a is Ok);
    let va = r_a->Ok_0.0;
    let ca = r_a->Ok_0.1;
    let vb = r_b->Ok_0.0;
    let cb = r_b->Ok_0.1;
    let wb = rates.spec_worth(cb@);
    let wa = rates.spec_worth(ca@);
    assert(wb is Some && wa is Some);
    let d = converted_amount(vb, wb->Some_0, wa->Some_0);
    // The addition's result carries `a`'s code, so the subtraction
    // converts `b` with the same pair of worths and subtracts the same
    // converted amount that was added.
    assert(r_sum == Ok::<(int, CurrencyCode), CurrencyCode>((va + d, ca)));
    assert(eval(Operation::Sub(sum, b), rates) == Ok::<(int, CurrencyCode), CurrencyCode>(
        (va + d - d, ca),
    ));
}

} // verus!
