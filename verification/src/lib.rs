//! Exact conversion of an amount between denominations of one cryptocurrency.
//!
//! A request names an amount and two units. It is accepted only when both units
//! belong to the same currency, and it is converted through that currency's
//! smallest denomination without any rounding: a result is either exact or refused.

pub mod text;
pub mod currency;
pub mod amount;
pub mod decimal;
pub mod conversion;
pub mod cli;
