//! Fixed-point money values tagged with currency codes, exchange-rate
//! tables, and a deferred operation algebra evaluated against those tables.
//!
//! Amounts are stored as 128-bit signed integers scaled by `AMOUNT_UNIT`
//! (one million), so all arithmetic is exact integer arithmetic. Overflow
//! behavior is explicit: every operation states in its contract the
//! bounds under which it fits in the 128 bits, and under those bounds it
//! is proved free of overflow, division by zero, and panics.

pub mod amount;
pub mod arith;
pub mod currency;
pub mod display;
pub mod error;
pub mod laws;
pub mod money;
pub mod ops;
pub mod registry;

pub use amount::CurrencyAmount;
pub use currency::{CurrencyCode, Exponent, Rates};
pub use error::Error;
pub use money::Money;
pub use ops::Operation;

use vstd::prelude::*;

verus! {

/// How much `amount` makes a unit.
pub const AMOUNT_UNIT: i128 = 1_000_000;

} // verus!
