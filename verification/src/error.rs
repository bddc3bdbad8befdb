//! Error values returned by fallible operations.

use vstd::prelude::*;

verus! {

use crate::currency::CurrencyCode;

/// Everything that can go wrong while building, converting or rendering
/// money values.
#[derive(Debug, Clone, PartialEq, Eq)]
pub enum Error {
    /// A currency-code string was not exactly three bytes long; carries
    /// the offending input.
    MalformedCode(String),
    /// An evaluation or conversion needed a rate that the rate table does
    /// not hold.
    RateNotFound(CurrencyCode),
    /// A default-precision lookup found no currency metadata for the code.
    UnknownCurrency(CurrencyCode),
    /// A requested display precision exceeds the fixed-point scale of six
    /// fractional digits.
    PrecisionTooHigh(u8),
    /// The stored code bytes are not valid UTF-8, so they cannot be
    /// rendered back into text; defensive, normally unreachable.
    InvalidCodeUtf8(CurrencyCode),
}

impl Error {
    /// A short human-readable description.
    pub fn describe(&self) -> (r: String)
        ensures
            r@.len() > 0,
    {
        let text: &str = match self {
            Error::MalformedCode(_) => "currency code is not exactly three bytes long",
            Error::RateNotFound(_) => "no rate is known for the currency",
            Error::UnknownCurrency(_) => "no currency metadata is known for the code",
            Error::PrecisionTooHigh(_) => "display precision exceeds the fixed-point scale",
            Error::InvalidCodeUtf8(_) => "stored code bytes are not valid UTF-8",
        };
        proof {
            reveal_strlit("currency code is not exactly three bytes long");
            reveal_strlit("no rate is known for the currency");
            reveal_strlit("no currency metadata is known for the code");
            reveal_strlit("display precision exceeds the fixed-point scale");
            reveal_strlit("stored code bytes are not valid UTF-8");
        }
        text.to_owned()
    }
}

} // verus!
