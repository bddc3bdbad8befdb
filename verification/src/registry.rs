//! A runtime currency-capability layer: each currency is a value
//! carrying its code, human-readable name and minor-unit exponent, a
//! registry validates the codes' uniqueness once at construction, and
//! money can be bound to a capability or carry its currency data
//! dynamically.

use vstd::prelude::*;

verus! {

use vstd::string::StringSliceAdditionalSpecFns;
use vstd::string::StrSliceExecFns;
use vstd::utf8::{valid_utf8, encode_utf8, encode_utf8_valid_utf8, encode_utf8_decode_utf8, valid_utf8_concat};
use crate::arith::{tdiv, trem, pow10, pow10_i128, div_i128, rem_i128, lemma_pow10_pos, lemma_tdiv_small};
use crate::display::{
    int_digits,
    frac_digits,
    push_int_digits,
    push_frac_digits,
    string_from_utf8,
    lemma_int_digits_ascii,
    lemma_frac_digits_ascii,
    lemma_ascii_valid_utf8,
};

/// A currency capability: everything the money layer needs to know about
/// one currency. Codes here are free-form strings, not restricted to
/// three bytes.
#[derive(Debug, Clone, PartialEq, Eq)]
pub struct Currency {
    /// Fully readable name.
    pub name: String,
    /// Unique identifying code.
    pub code: String,
    /// Minor-unit exponent: how many fractional digits one unit carries.
    pub units: u8,
}

/// Errors of the capability registry.
#[derive(Debug, Clone, PartialEq, Eq)]
pub enum RegistryError {
    /// Two registered currencies share this code.
    DuplicateCode(String),
    /// No registered currency has this code.
    UnknownCode(String),
}

/// Errors when binding dynamically-tagged money to a capability.
#[derive(Debug, Clone, PartialEq, Eq)]
pub enum ConvertError<'d> {
    /// The dynamic money (carried along) does not hold the expected
    /// currency code (carried as the second field).
    DifferentCurrency(MoneyDynamic<'d>, String),
}

/// String equality, decided byte by byte.
fn str_eq(a: &str, b: &str) -> (r: bool)
    ensures
        r == (a@ == b@),
{
    let ab = a.as_bytes();
    let bb = b.as_bytes();
    proof {
        encode_utf8_decode_utf8(a@);
        encode_utf8_decode_utf8(b@);
    }
    if ab.len() != bb.len() {
        return false;
    }
    let n = ab.len();
    let mut i: usize = 0;
    while i < n
        invariant
            i <= n,
            n == ab@.len() == bb@.len(),
            ab@ == a.spec_bytes(),
            bb@ == b.spec_bytes(),
            forall|j: int| 0 <= j < i ==> ab@[j] == bb@[j],
        decreases n - i,
    {
        if ab[i] != bb[i] {
            return false;
        }
        i = i + 1;
    }
    proof {
        assert(a.spec_bytes() =~= b.spec_bytes());
    }
    true
}

/// The first registered currency carrying the given code, if any; with
/// codes unique, the only one.
pub open spec fn find_currency(list: Seq<Currency>, code: Seq<char>) -> Option<Currency>
    decreases list.len(),
{
    if list.len() == 0 {
        None
    } else if list.first().code@ == code {
        Some(list.first())
    } else {
        find_currency(list.drop_first(), code)
    }
}

/// No two entries share a code.
pub open spec fn unique_codes(list: Seq<Currency>) -> bool {
    forall|i: int, j: int|
        0 <= i < j < list.len() ==> (#[trigger] list[i].code)@ != (#[trigger] list[j].code)@
}

/// A registry of currency capabilities, its codes validated unique once
/// at construction. Its view is the sequence of registered currencies.
#[derive(Debug, Clone, PartialEq, Eq)]
pub struct CurrencyRegistry {
    currencies: Vec<Currency>,
}

impl View for CurrencyRegistry {
    type V = Seq<Currency>;

    closed spec fn view(&self) -> Seq<Currency> {
        self.currencies@
    }
}

impl CurrencyRegistry {
    /// A registry holding exactly the given currencies, or the first
    /// duplicated code.
    pub fn with_currencies(list: Vec<Currency>) -> (r: Result<CurrencyRegistry, RegistryError>)
        ensures
            unique_codes(list@) <==> r is Ok,
            r matches Ok(reg) ==> reg@ == list@,
            r matches Err(e) ==> e matches RegistryError::DuplicateCode(c) && exists|i: int, j: int|
                0 <= i < j < list@.len() && (#[trigger] list@[i].code)@ == (
                #[trigger] list@[j].code)@ && c@ == list@[i].code@,
    {
        let n = list.len();
        let mut i: usize = 0;
        while i < n
            invariant
                i <= n,
                n == list@.len(),
                forall|p: int, q: int|
                    0 <= p < q < list@.len() && p < i ==> (#[trigger] list@[p].code)@ != (
                    #[trigger] list@[q].code)@,
            decreases n - i,
        {
            let mut j: usize = i + 1;
            while j < n
                invariant
                    i < j <= n,
                    n == list@.len(),
                    forall|q: int| i < q < j ==> (list@[i as int].code)@ != (#[trigger] list@[q].code)@,
                decreases n - j,
            {
                if str_eq(list[i].code.as_str(), list[j].code.as_str()) {
                    return Err(RegistryError::DuplicateCode(list[i].code.clone()));
                }
                j = j + 1;
            }
            i = i + 1;
        }
        Ok(CurrencyRegistry { currencies: list })
    }

    /// The capability registered for the given code, or `UnknownCode`.
    pub fn capability(&self, code: &str) -> (r: Result<Currency, RegistryError>)
        ensures
            match find_currency(self@, code@) {
                Some(c) => r == Ok::<Currency, RegistryError>(c),
                None => r matches Err(e) && e matches RegistryError::UnknownCode(s) && s@
                    == code@,
            },
    {
        let n = self.currencies.len();
        let mut i: usize = 0;
        proof {
            assert(self@.skip(0) =~= self@);
        }
        while i < n
            invariant
                i <= n,
                n == self@.len(),
                find_currency(self@, code@) == find_currency(self@.skip(i as int), code@),
            decreases n - i,
        {
            let entry = &self.currencies[i];
            if str_eq(entry.code.as_str(), code) {
                proof {
                    assert(self@.skip(i as int).first() == self@[i as int]);
                }
                return Ok(
                    Currency {
                        name: entry.name.clone(),
                        code: entry.code.clone(),
                        units: entry.units,
                    },
                );
            }
            proof {
                assert(self@.skip(i as int).drop_first() =~= self@.skip(i as int + 1));
            }
            i = i + 1;
        }
        Err(RegistryError::UnknownCode(String::from_str(code)))
    }
}

/// The rendered bytes of code-first money text: the code, a space, the
/// whole units, and, unless the minor-unit exponent is zero, a dot and
/// the fractional digits zero-padded to that exponent.
pub open spec fn coded_money_bytes(code: Seq<u8>, amount: int, precision: int) -> Seq<u8> {
    let whole = tdiv(amount, pow10(precision as nat));
    let frac = trem(amount, pow10(precision as nat));
    if precision == 0 {
        code + seq![32u8] + int_digits(whole)
    } else {
        code + seq![32u8] + int_digits(whole) + seq![46u8] + frac_digits(frac, precision)
    }
}

/// Render `<code> <whole>.<frac>` where the amount counts minor units:
/// ten to the `precision` of them make a whole unit.
fn format_coded(code: &str, amount: i128, precision: u8) -> (r: String)
    ensures
        encode_utf8(r@) == coded_money_bytes(code.spec_bytes(), amount as int, precision as int),
{
    let mut buf = code.as_bytes_vec();
    buf.push(32);
    proof {
        lemma_pow10_pos(precision as nat);
    }
    let pair: (i128, i128) = match pow10_i128(precision) {
        Some(scale) => (div_i128(amount, scale), rem_i128(amount, scale)),
        None => {
            proof {
                lemma_tdiv_small(amount as int, pow10(precision as nat));
            }
            (0, amount)
        },
    };
    push_int_digits(pair.0, &mut buf);
    if precision > 0 {
        buf.push(46);
        push_frac_digits(pair.1, precision, &mut buf);
    }
    let ghost tail = buf@.skip(code.spec_bytes().len() as int);
    proof {
        assert(buf@ =~= code.spec_bytes() + tail);
        assert(buf@ =~= coded_money_bytes(code.spec_bytes(), amount as int, precision as int));
        encode_utf8_valid_utf8(code@);
        lemma_int_digits_ascii(tdiv(amount as int, pow10(precision as nat)));
        lemma_frac_digits_ascii(trem(amount as int, pow10(precision as nat)), precision as int);
        lemma_ascii_valid_utf8(tail);
        valid_utf8_concat(code.spec_bytes(), tail);
    }
    string_from_utf8(buf).unwrap()
}

/// Money bound to a currency capability: the amount counts minor units
/// of that currency (ten to the `units` exponent make one whole unit).
#[derive(Debug, Clone, PartialEq, Eq)]
pub struct Money {
    pub amount: i128,
    pub currency: Currency,
}

impl Money {
    /// Money of the given currency with the given minor-unit count.
    pub fn with_amount(amount: i128, currency: Currency) -> (r: Self)
        ensures
            r.amount == amount,
            r.currency == currency,
    {
        Money { amount, currency }
    }

    /// Exact sum; both sides must be bound to the same currency, as the
    /// typed variant's signature would otherwise already rule out.
    pub fn add(self, other: Self) -> (r: Self)
        requires
            self.currency.code@ == other.currency.code@,
            self.currency.units == other.currency.units,
            i128::MIN <= self.amount + other.amount <= i128::MAX,
        ensures
            r.amount == self.amount + other.amount,
            r.currency == self.currency,
    {
        Money { amount: self.amount + other.amount, currency: self.currency }
    }

    /// Exact difference under the same conditions as `add`.
    pub fn sub(self, other: Self) -> (r: Self)
        requires
            self.currency.code@ == other.currency.code@,
            self.currency.units == other.currency.units,
            i128::MIN <= self.amount - other.amount <= i128::MAX,
        ensures
            r.amount == self.amount - other.amount,
            r.currency == self.currency,
    {
        Money { amount: self.amount - other.amount, currency: self.currency }
    }

    /// Render as `<CODE> <whole>.<frac>` at the currency's own minor-unit
    /// exponent.
    pub fn format(&self) -> (r: String)
        ensures
            encode_utf8(r@) == coded_money_bytes(
                encode_utf8(self.currency.code@),
                self.amount as int,
                self.currency.units as int,
            ),
    {
        format_coded(self.currency.code.as_str(), self.amount, self.currency.units)
    }

    /// Bind dynamically-tagged money to a capability: succeeds exactly
    /// when the dynamic code matches the capability's, and otherwise
    /// reports the mismatch with the dynamic money and the expected code.
    pub fn try_from_dynamic<'a>(dynamic: MoneyDynamic<'a>, currency: Currency) -> (r: Result<
        Money,
        ConvertError<'a>,
    >)
        ensures
            dynamic.currency_code@ == currency.code@ ==> {
                &&& r matches Ok(m)
                &&& m.amount == dynamic.amount
                &&& m.currency == currency
            },
            dynamic.currency_code@ != currency.code@ ==> {
                &&& r matches Err(e)
                &&& e matches ConvertError::DifferentCurrency(d, c)
                &&& d == dynamic
                &&& c@ == currency.code@
            },
    {
        if str_eq(dynamic.currency_code, currency.code.as_str()) {
            Ok(Money { amount: dynamic.amount, currency })
        } else {
            Err(ConvertError::DifferentCurrency(dynamic, currency.code.clone()))
        }
    }
}

/// The total of a batch of money amounts.
pub open spec fn amount_total(s: Seq<Money>) -> int
    decreases s.len(),
{
    if s.len() == 0 {
        0
    } else {
        amount_total(s.drop_last()) + s.last().amount
    }
}

/// Every prefix total of the batch stays within `i128`.
pub open spec fn totals_fit(s: Seq<Money>) -> bool {
    forall|k: int|
        0 <= k <= s.len() ==> i128::MIN <= amount_total(#[trigger] s.take(k)) <= i128::MAX
}

/// All entries of the batch are bound to one currency.
pub open spec fn same_currency(s: Seq<Money>) -> bool {
    forall|k: int|
        0 <= k < s.len() ==> (#[trigger] s[k]).currency.code@ == s[0].currency.code@
            && s[k].currency.units == s[0].currency.units
}

impl Money {
    /// Fold a non-empty batch into its sum, left to right, carrying the
    /// batch's shared currency.
    pub fn sum_all(items: Vec<Money>) -> (r: Money)
        requires
            items@.len() > 0,
            same_currency(items@),
            totals_fit(items@),
        ensures
            r.amount == amount_total(items@),
            r.currency == items@[0].currency,
    {
        let n = items.len();
        let mut acc: i128 = 0;
        let mut i: usize = 0;
        while i < n
            invariant
                i <= n,
                n == items@.len(),
                totals_fit(items@),
                acc as int == amount_total(items@.take(i as int)),
            decreases n - i,
        {
            proof {
                assert(items@.take(i as int + 1).drop_last() =~= items@.take(i as int));
                assert(amount_total(items@.take(i as int + 1)) == acc + items@[i as int].amount);
            }
            acc = acc + items[i].amount;
            i = i + 1;
        }
        proof {
            assert(items@.take(n as int) =~= items@);
        }
        let first = &items[0];
        Money {
            amount: acc,
            currency: Currency {
                name: first.currency.name.clone(),
                code: first.currency.code.clone(),
                units: first.currency.units,
            },
        }
    }
}

/// Money tagged at run time with its currency code and minor-unit
/// exponent, for currencies only known dynamically.
#[derive(Debug, Clone, PartialEq, Eq)]
pub struct MoneyDynamic<'a> {
    pub amount: i128,
    pub currency_code: &'a str,
    pub currency_units: u8,
}

impl<'a> MoneyDynamic<'a> {
    pub fn new(amount: i128, code: &'a str, units: u8) -> (r: Self)
        ensures
            r.amount == amount,
            r.currency_code == code,
            r.currency_units == units,
    {
        MoneyDynamic { amount, currency_code: code, currency_units: units }
    }

    /// Exact sum; both sides must carry the same code and exponent:
    /// amounts of different currencies have no direct sum.
    pub fn add(self, other: MoneyDynamic<'_>) -> (r: Self)
        requires
            self.currency_code@ == other.currency_code@,
            self.currency_units == other.currency_units,
            i128::MIN <= self.amount + other.amount <= i128::MAX,
        ensures
            r.amount == self.amount + other.amount,
            r.currency_code == self.currency_code,
            r.currency_units == self.currency_units,
    {
        MoneyDynamic {
            amount: self.amount + other.amount,
            currency_code: self.currency_code,
            currency_units: self.currency_units,
        }
    }

    /// Exact difference under the same conditions as `add`.
    pub fn sub(self, other: MoneyDynamic<'_>) -> (r: Self)
        requires
            self.currency_code@ == other.currency_code@,
            self.currency_units == other.currency_units,
            i128::MIN <= self.amount - other.amount <= i128::MAX,
        ensures
            r.amount == self.amount - other.amount,
            r.currency_code == self.currency_code,
            r.currency_units == self.currency_units,
    {
        MoneyDynamic {
            amount: self.amount - other.amount,
            currency_code: self.currency_code,
            currency_units: self.currency_units,
        }
    }

    /// Render as `<CODE> <whole>.<frac>` at the carried minor-unit
    /// exponent.
    pub fn format(&self) -> (r: String)
        ensures
            encode_utf8(r@) == coded_money_bytes(
                self.currency_code.spec_bytes(),
                self.amount as int,
                self.currency_units as int,
            ),
    {
        format_coded(self.currency_code, self.amount, self.currency_units)
    }
}

} // verus!
