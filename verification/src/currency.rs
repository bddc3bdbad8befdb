//! Currency codes, scaling exponents, and the exchange-rate table.

use vstd::prelude::*;

verus! {

use vstd::string::StringSliceAdditionalSpecFns;
use crate::amount::CurrencyAmount;
use crate::arith::{tdiv, pow10, pow10_i128, div_i128, lemma_pow10_pos};
use crate::error::Error;

/// A currency identifier: exactly three bytes, stored verbatim as they
/// appeared in the validated input string.
///
/// Its view is the sequence of the three stored bytes.
#[derive(Clone, Copy, Debug, Hash, PartialEq, Eq)]
pub struct CurrencyCode {
    code: [u8; 3],
}

impl View for CurrencyCode {
    type V = Seq<u8>;

    closed spec fn view(&self) -> Seq<u8> {
        self.code@
    }
}

impl CurrencyCode {
    /// Validating constructor: accepts exactly three bytes and stores
    /// them verbatim; anything else is a malformed code.
    pub fn with_str(s: &str) -> (r: Result<CurrencyCode, Error>)
        ensures
            s.spec_bytes().len() == 3 <==> r is Ok,
            r matches Ok(c) ==> c@ == s.spec_bytes(),
            r matches Err(e) ==> e matches Error::MalformedCode(t) && t@ == s@,
    {
        if s.len() != 3 {
            Err(Error::MalformedCode(s.to_owned()))
        } else {
            let b = s.as_bytes();
            let code = [b[0], b[1], b[2]];
            proof {
                assert(code@ =~= s.spec_bytes());
            }
            Ok(CurrencyCode { code })
        }
    }

    /// The three stored bytes.
    pub fn bytes(&self) -> (r: [u8; 3])
        ensures
            r@ == self@,
    {
        self.code
    }

    /// Byte-for-byte equality.
    pub fn eq_code(&self, other: &CurrencyCode) -> (r: bool)
        ensures
            r == (self@ == other@),
    {
        let same = self.code[0] == other.code[0] && self.code[1] == other.code[1]
            && self.code[2] == other.code[2];
        proof {
            if same {
                assert(self@ =~= other@);
            }
        }
        same
    }
}

impl core::str::FromStr for CurrencyCode {
    type Err = Error;

    fn from_str(s: &str) -> Result<Self, Error> {
        CurrencyCode::with_str(s)
    }
}

impl Default for CurrencyCode {
    fn default() -> (r: Self)
        ensures
            r@ == seq![0u8, 0u8, 0u8],
    {
        let code: [u8; 3] = [0, 0, 0];
        proof {
            assert(code@ =~= seq![0u8, 0u8, 0u8]);
        }
        CurrencyCode { code }
    }
}

/// An amount paired with a non-negative power-of-ten scale. Used as the
/// right-hand operand of multiply/divide operations, where the scale
/// undoes the extra fixed-point factor.
#[derive(Clone, Copy, Debug)]
pub struct Exponent {
    pub amount: CurrencyAmount,
    pub exponent: u8,
}

impl Exponent {
    pub fn new(amount: CurrencyAmount, exponent: u8) -> (r: Self)
        ensures
            r.amount == amount,
            r.exponent == exponent,
    {
        Exponent { amount, exponent }
    }

    /// The comparison the scaling algebra means: each amount divided down
    /// by its own scale, then compared. Kept apart from exact equality on
    /// purpose: two exponents can compare equal here through truncation.
    pub fn normalized_eq(&self, other: &Exponent) -> (r: bool)
        requires
            pow10(self.exponent as nat) <= i128::MAX,
            pow10(other.exponent as nat) <= i128::MAX,
        ensures
            r == (tdiv(self.amount@, pow10(self.exponent as nat)) == tdiv(
                other.amount@,
                pow10(other.exponent as nat),
            )),
    {
        proof {
            lemma_pow10_pos(self.exponent as nat);
            lemma_pow10_pos(other.exponent as nat);
        }
        let p_self = pow10_i128(self.exponent).unwrap();
        let p_other = pow10_i128(other.exponent).unwrap();
        div_i128(self.amount.raw(), p_self) == div_i128(other.amount.raw(), p_other)
    }
}

/// The worth that a sequence of rate entries gives a code: the last entry
/// carrying that code wins, so a later rate overrides an earlier one.
pub open spec fn rate_of(
    entries: Seq<(CurrencyCode, CurrencyAmount)>,
    code: Seq<u8>,
) -> Option<int>
    decreases entries.len(),
{
    if entries.len() == 0 {
        None
    } else if entries.last().0@ == code {
        Some(entries.last().1@)
    } else {
        rate_of(entries.drop_last(), code)
    }
}

/// A table mapping currency codes to their worth: how many base reference
/// units one unit of the currency equals. Immutable once built.
///
/// Its view is the sequence of entries it was built from.
#[derive(Clone, Debug)]
pub struct Rates {
    entries: Vec<(CurrencyCode, CurrencyAmount)>,
}

impl View for Rates {
    type V = Seq<(CurrencyCode, CurrencyAmount)>;

    closed spec fn view(&self) -> Seq<(CurrencyCode, CurrencyAmount)> {
        self.entries@
    }
}

impl Rates {
    /// The worth this table gives a code, if any.
    pub open spec fn spec_worth(&self, code: Seq<u8>) -> Option<int> {
        rate_of(self@, code)
    }

    /// An empty table.
    pub fn new() -> (r: Self)
        ensures
            r@ == Seq::<(CurrencyCode, CurrencyAmount)>::empty(),
    {
        Rates::default()
    }

    /// A table holding exactly the given rates; among entries that share
    /// a code, the one given last wins.
    pub fn with_rates(map: Vec<(CurrencyCode, CurrencyAmount)>) -> (r: Self)
        ensures
            r@ == map@,
    {
        Rates { entries: map }
    }

    /// The worth of a currency, or `RateNotFound` when the table has no
    /// entry for its code.
    pub fn worth(&self, code: CurrencyCode) -> (r: Result<CurrencyAmount, Error>)
        ensures
            match self.spec_worth(code@) {
                Some(w) => r matches Ok(a) && a@ == w,
                None => r == Err::<CurrencyAmount, Error>(Error::RateNotFound(code)),
            },
    {
        let mut i: usize = self.entries.len();
        proof {
            assert(self@.take(i as int) =~= self@);
        }
        while i > 0
            invariant
                i <= self@.len(),
                rate_of(self@, code@) == rate_of(self@.take(i as int), code@),
            decreases i,
        {
            let idx = i - 1;
            if self.entries[idx].0.eq_code(&code) {
                proof {
                    assert(self@.take(i as int).last() == self@[idx as int]);
                }
                return Ok(self.entries[idx].1);
            }
            proof {
                assert(self@.take(i as int).drop_last() =~= self@.take(idx as int));
            }
            i = idx;
        }
        Err(Error::RateNotFound(code))
    }
}

impl Default for Rates {
    fn default() -> (r: Self)
        ensures
            r@ == Seq::<(CurrencyCode, CurrencyAmount)>::empty(),
    {
        Rates { entries: Vec::new() }
    }
}

} // verus!
