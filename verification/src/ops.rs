//! The deferred operation algebra: an expression tree over money values,
//! built by chaining and evaluated once against a rate table.

use vstd::prelude::*;

verus! {

use crate::amount::CurrencyAmount;
use crate::arith::{tdiv, pow10, pow10_i128, div_i128, lemma_pow10_pos};
use crate::currency::{CurrencyCode, Exponent, Rates};
use crate::error::Error;
use crate::money::{Money, converted_amount, conversion_fits};

/// A deferred arithmetic expression. Chaining the builder methods only
/// grows the tree; nothing is computed until [`Operation::execute`].
///
/// Addition and subtraction convert the right operand into the left
/// operand's currency, so a chain always resolves to the currency of its
/// first term. Multiplication and division scale by an [`Exponent`],
/// keeping the currency.
pub enum Operation {
    /// A bare money value: the identity leaf.
    Money(Money),
    /// Evaluate both sides, convert the right into the left's currency,
    /// and add the scaled amounts.
    Add(Box<Operation>, Box<Operation>),
    /// Same conversion rule as `Add`, then subtract.
    Sub(Box<Operation>, Box<Operation>),
    /// Multiply the evaluated amount by `exponent.amount`, then divide by
    /// ten to the `exponent.exponent` to undo the extra fixed-point
    /// factor that multiplying two scaled integers introduces.
    Mul(Box<Operation>, Exponent),
    /// Multiply by ten to the `exponent.exponent` first, then divide by
    /// `exponent.amount`; this order preserves integer precision.
    Div(Box<Operation>, Exponent),
}

/// What evaluating an operation yields: a scaled amount, unbounded, and
/// the currency that carries it; or the code whose rate was missing. The
/// tree is walked depth-first, left to right, and the first missing rate
/// wins.
pub open spec fn eval(op: Operation, rates: Rates) -> Result<(int, CurrencyCode), CurrencyCode>
    decreases op,
{
    match op {
        Operation::Money(m) => Ok((m.amount@, m.currency_code)),
        Operation::Add(a, b) => match (eval(*a, rates), eval(*b, rates)) {
            (Err(c), _) => Err(c),
            (Ok(_), Err(c)) => Err(c),
            (Ok((va, ca)), Ok((vb, cb))) => match (
                rates.spec_worth(cb@),
                rates.spec_worth(ca@),
            ) {
                (None, _) => Err(cb),
                (Some(_), None) => Err(ca),
                (Some(wb), Some(wa)) => Ok((va + converted_amount(vb, wb, wa), ca)),
            },
        },
        Operation::Sub(a, b) => match (eval(*a, rates), eval(*b, rates)) {
            (Err(c), _) => Err(c),
            (Ok(_), Err(c)) => Err(c),
            (Ok((va, ca)), Ok((vb, cb))) => match (
                rates.spec_worth(cb@),
                rates.spec_worth(ca@),
            ) {
                (None, _) => Err(cb),
                (Some(_), None) => Err(ca),
                (Some(wb), Some(wa)) => Ok((va - converted_amount(vb, wb, wa), ca)),
            },
        },
        Operation::Mul(a, e) => match eval(*a, rates) {
            Err(c) => Err(c),
            Ok((va, ca)) => Ok((tdiv(va * e.amount@, pow10(e.exponent as nat)), ca)),
        },
        Operation::Div(a, e) => match eval(*a, rates) {
            Err(c) => Err(c),
            Ok((va, ca)) => Ok((tdiv(va * pow10(e.exponent as nat), e.amount@), ca)),
        },
    }
}

/// The machine-size conditions under which evaluating the tree neither
/// overflows `i128` nor divides by zero: every intermediate value on the
/// path actually evaluated stays in range.
pub open spec fn eval_fits(op: Operation, rates: Rates) -> bool
    decreases op,
{
    match op {
        Operation::Money(_) => true,
        Operation::Add(a, b) => {
            &&& eval_fits(*a, rates)
            &&& (eval(*a, rates) is Ok ==> eval_fits(*b, rates))
            &&& match (eval(*a, rates), eval(*b, rates)) {
                (Ok((va, ca)), Ok((vb, cb))) => {
                    &&& conversion_fits(vb, rates.spec_worth(cb@), rates.spec_worth(ca@))
                    &&& match (rates.spec_worth(cb@), rates.spec_worth(ca@)) {
                        (Some(wb), Some(wa)) => i128::MIN <= va + converted_amount(vb, wb, wa)
                            <= i128::MAX,
                        _ => true,
                    }
                },
                _ => true,
            }
        },
        Operation::Sub(a, b) => {
            &&& eval_fits(*a, rates)
            &&& (eval(*a, rates) is Ok ==> eval_fits(*b, rates))
            &&& match (eval(*a, rates), eval(*b, rates)) {
                (Ok((va, ca)), Ok((vb, cb))) => {
                    &&& conversion_fits(vb, rates.spec_worth(cb@), rates.spec_worth(ca@))
                    &&& match (rates.spec_worth(cb@), rates.spec_worth(ca@)) {
                        (Some(wb), Some(wa)) => i128::MIN <= va - converted_amount(vb, wb, wa)
                            <= i128::MAX,
                        _ => true,
                    }
                },
                _ => true,
            }
        },
        Operation::Mul(a, e) => {
            &&& eval_fits(*a, rates)
            &&& match eval(*a, rates) {
                Ok((va, _)) => {
                    &&& pow10(e.exponent as nat) <= i128::MAX
                    &&& i128::MIN <= va * e.amount@ <= i128::MAX
                },
                _ => true,
            }
        },
        Operation::Div(a, e) => {
            &&& eval_fits(*a, rates)
            &&& match eval(*a, rates) {
                Ok((va, _)) => {
                    &&& pow10(e.exponent as nat) <= i128::MAX
                    &&& i128::MIN <= va * pow10(e.exponent as nat) <= i128::MAX
                    &&& e.amount@ != 0
                    &&& !(va * pow10(e.exponent as nat) == i128::MIN && e.amount@ == -1)
                },
                _ => true,
            }
        },
    }
}

impl Operation {
    /// Wrap a money value as a leaf.
    pub fn money(m: Money) -> (r: Operation)
        ensures
            r == Operation::Money(m),
    {
        Operation::Money(m)
    }

    /// Defer an addition: builds a node, computes nothing.
    pub fn add(self, other: Operation) -> (r: Operation)
        ensures
            r matches Operation::Add(a, b) && *a == self && *b == other,
    {
        Operation::Add(Box::new(self), Box::new(other))
    }

    /// Defer a subtraction: builds a node, computes nothing.
    pub fn sub(self, other: Operation) -> (r: Operation)
        ensures
            r matches Operation::Sub(a, b) && *a == self && *b == other,
    {
        Operation::Sub(Box::new(self), Box::new(other))
    }

    /// Defer a multiplication by an exponent: builds a node, computes
    /// nothing.
    pub fn mul(self, exponent: Exponent) -> (r: Operation)
        ensures
            r matches Operation::Mul(a, e) && *a == self && e == exponent,
    {
        Operation::Mul(Box::new(self), exponent)
    }

    /// Defer a division by an exponent: builds a node, computes nothing.
    pub fn div(self, exponent: Exponent) -> (r: Operation)
        ensures
            r matches Operation::Div(a, e) && *a == self && e == exponent,
    {
        Operation::Div(Box::new(self), exponent)
    }

    /// Evaluate the tree against the given rates, consuming it. Returns
    /// exactly what [`eval`] says, with a missing rate reported as
    /// `RateNotFound` on the first code that lacked one.
    pub fn execute(self, rates: &Rates) -> (r: Result<Money, Error>)
        requires
            eval_fits(self, *rates),
        ensures
            match eval(self, *rates) {
                Ok((v, c)) => r matches Ok(m) && m.amount@ == v && m.currency_code == c,
                Err(c) => r == Err::<Money, Error>(Error::RateNotFound(c)),
            },
        decreases self,
    {
        match self {
            Operation::Money(m) => Ok(m),
            Operation::Add(a, b) => {
                let money_a = match (*a).execute(rates) {
                    Ok(m) => m,
                    Err(e) => { return Err(e); },
                };
                let money_b = match (*b).execute(rates) {
                    Ok(m) => m,
                    Err(e) => { return Err(e); },
                };
                let converted = match money_b.into_code(money_a.currency_code, rates) {
                    Ok(m) => m,
                    Err(e) => { return Err(e); },
                };
                Ok(Money::new(money_a.amount.add(converted.amount), money_a.currency_code))
            },
            Operation::Sub(a, b) => {
                let money_a = match (*a).execute(rates) {
                    Ok(m) => m,
                    Err(e) => { return Err(e); },
                };
                let money_b = match (*b).execute(rates) {
                    Ok(m) => m,
                    Err(e) => { return Err(e); },
                };
                let converted = match money_b.into_code(money_a.currency_code, rates) {
                    Ok(m) => m,
                    Err(e) => { return Err(e); },
                };
                Ok(Money::new(money_a.amount.sub(converted.amount), money_a.currency_code))
            },
            Operation::Mul(a, e) => {
                let money_a = match (*a).execute(rates) {
                    Ok(m) => m,
                    Err(err) => { return Err(err); },
                };
                proof {
                    lemma_pow10_pos(e.exponent as nat);
                }
                let scale = pow10_i128(e.exponent).unwrap();
                let product = money_a.amount.raw() * e.amount.raw();
                Ok(Money::new(
                    CurrencyAmount::from_raw(div_i128(product, scale)),
                    money_a.currency_code,
                ))
            },
            Operation::Div(a, e) => {
                let money_a = match (*a).execute(rates) {
                    Ok(m) => m,
                    Err(err) => { return Err(err); },
                };
                proof {
                    lemma_pow10_pos(e.exponent as nat);
                }
                let scale = pow10_i128(e.exponent).unwrap();
                let product = money_a.amount.raw() * scale;
                Ok(Money::new(
                    CurrencyAmount::from_raw(div_i128(product, e.amount.raw())),
                    money_a.currency_code,
                ))
            },
        }
    }
}

} // verus!
