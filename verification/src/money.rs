//! The atomic monetary value: an amount tagged with a currency code.

use vstd::prelude::*;

verus! {

use vstd::string::StringSliceAdditionalSpecFns;
use crate::amount::CurrencyAmount;
use crate::arith::tdiv;
use crate::currency::{CurrencyCode, Rates};
use crate::error::Error;
use crate::AMOUNT_UNIT;

/// An `amount` of money having a certain `currency_code`. The amount
/// holds fractions of a unit; see [`crate::AMOUNT_UNIT`].
#[derive(Debug, Clone, Copy, PartialEq, Eq)]
pub struct Money {
    pub amount: CurrencyAmount,
    pub currency_code: CurrencyCode,
}

/// What converting an amount between two currencies yields: scale by the
/// worth of the source currency, then divide (truncating) by the worth of
/// the target currency.
pub open spec fn converted_amount(amount: int, worth_from: int, worth_to: int) -> int {
    tdiv(amount * worth_from, worth_to)
}

/// The machine-size conditions under which a conversion neither overflows
/// `i128` nor divides by zero. Only constrains inputs when both rates are
/// present; a missing rate errors out before any arithmetic.
pub open spec fn conversion_fits(amount: int, worth_from: Option<int>, worth_to: Option<int>) -> bool {
    worth_from matches Some(ws) && worth_to matches Some(wn) ==> {
        &&& wn != 0
        &&& i128::MIN <= amount * ws <= i128::MAX
        &&& !(amount * ws == i128::MIN && wn == -1)
    }
}

impl Money {
    pub fn new(amount: CurrencyAmount, currency_code: CurrencyCode) -> (r: Self)
        ensures
            r.amount == amount,
            r.currency_code == currency_code,
    {
        Money { amount, currency_code }
    }

    /// The same money expressed in another currency: the amount is scaled
    /// by the worth of its own currency and divided by the worth of the
    /// target, and the result carries the target code. Fails with
    /// `RateNotFound` on whichever code the table lacks, own code first.
    pub fn into_code(self, code: CurrencyCode, rates: &Rates) -> (r: Result<Money, Error>)
        requires
            conversion_fits(
                self.amount@,
                rates.spec_worth(self.currency_code@),
                rates.spec_worth(code@),
            ),
        ensures
            match (rates.spec_worth(self.currency_code@), rates.spec_worth(code@)) {
                (None, _) => r == Err::<Money, Error>(Error::RateNotFound(self.currency_code)),
                (Some(_), None) => r == Err::<Money, Error>(Error::RateNotFound(code)),
                (Some(ws), Some(wn)) => r matches Ok(m) && m.currency_code == code && m.amount@
                    == converted_amount(self.amount@, ws, wn),
            },
    {
        let worth_self = match rates.worth(self.currency_code) {
            Ok(w) => w,
            Err(e) => { return Err(e); },
        };
        let worth_new = match rates.worth(code) {
            Ok(w) => w,
            Err(e) => { return Err(e); },
        };
        Ok(Money { amount: self.amount.mul(worth_self).div(worth_new), currency_code: code })
    }

    /// Money with the given amount and code, or `MalformedCode` when the
    /// code string is not exactly three bytes long.
    pub fn with_str_code(amount: CurrencyAmount, currency_code: &str) -> (r: Result<Money, Error>)
        ensures
            currency_code.spec_bytes().len() == 3 <==> r is Ok,
            r matches Ok(m) ==> m.amount == amount && m.currency_code@
                == currency_code.spec_bytes(),
            r matches Err(e) ==> e matches Error::MalformedCode(t) && t@ == currency_code@,
    {
        match CurrencyCode::with_str(currency_code) {
            Ok(code) => Ok(Money::new(amount, code)),
            Err(e) => Err(e),
        }
    }

    /// Like `with_str_code`, but takes cents instead of a scaled amount,
    /// for the sake of a shorter call.
    pub fn with_cents(cents: i128, currency_code: &str) -> (r: Result<Money, Error>)
        requires
            i128::MIN <= cents * AMOUNT_UNIT <= i128::MAX,
        ensures
            currency_code.spec_bytes().len() == 3 <==> r is Ok,
            r matches Ok(m) ==> m.amount@ == cents * 10_000 && m.currency_code@
                == currency_code.spec_bytes(),
            r matches Err(e) ==> e matches Error::MalformedCode(t) && t@ == currency_code@,
    {
        Money::with_str_code(CurrencyAmount::with_cents(cents), currency_code)
    }
}

impl Default for Money {
    fn default() -> (r: Self)
        ensures
            r.amount@ == 0,
            r.currency_code@ == seq![0u8, 0u8, 0u8],
    {
        Money { amount: CurrencyAmount::default(), currency_code: CurrencyCode::default() }
    }
}

} // verus!
