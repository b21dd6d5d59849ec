//! The boundary to `rust_decimal`, the decimal arithmetic that amounts are parsed, multiplied,
//! divided and printed with.
//!
//! Nothing in this file is proved. A decimal crosses the boundary as its mantissa and its
//! scale. What each operation returns is given a name, a function of the operands alone;
//! the contracts of the callers speak of these names.

use vstd::prelude::*;
use core::str::FromStr;
use rust_decimal::Decimal;
use crate::amount::{MAX_MANTISSA, MAX_SCALE};
use crate::text::is_numeral;

verus! {

/// The error type of `rust_decimal`, carried through as it is.
#[verifier::external_type_specification]
#[verifier::external_body]
pub struct ExDecimalError(rust_decimal::Error);

/// What `Decimal::from_str` makes of a text: mantissa and scale of the decimal, or `None`
/// where it returns an error.
pub uninterp spec fn decimal_from_text(text: Seq<char>) -> Option<(int, int)>;

/// What `Decimal::checked_mul` returns for the decimals `am / 10^a_scale` and
/// `bm / 10^b_scale`: mantissa and scale of the product, or `None`.
pub uninterp spec fn decimal_product(am: int, a_scale: int, bm: int, b_scale: int) -> Option<
    (int, int),
>;

/// What `Decimal::checked_div` returns for the decimals `am / 10^a_scale` and
/// `bm / 10^b_scale`: mantissa and scale of the quotient, or `None`.
pub uninterp spec fn decimal_quotient(am: int, a_scale: int, bm: int, b_scale: int) -> Option<
    (int, int),
>;

/// What `Decimal`'s `Display` writes for the decimal `m / 10^scale`.
pub uninterp spec fn decimal_text(m: int, scale: int) -> Seq<char>;

/// The longest text that is handed to `Decimal::from_str`. Its parser calls itself for each
/// digit for as long as the digits read so far make a small number, so that a long run of
/// leading zeros uses up the stack. The bound keeps the depth to a few hundred calls.
pub const MAX_TEXT_LENGTH: usize = 256;

/// Whether a mantissa and a scale are those of a decimal: the mantissa has at most 96 bits,
/// the scale is at most 28.
pub open spec fn is_decimal(m: int, scale: int) -> bool {
    -MAX_MANTISSA <= m <= MAX_MANTISSA && 0 <= scale <= MAX_SCALE
}

/// Calls `Decimal::from_str` and takes the decimal apart with `Decimal::mantissa` and
/// `Decimal::scale`. Claimed: the outcome depends on the text alone, and a decimal that comes
/// back is within the capacity that the type documents. The call is made on numerals only,
/// so that the other notations that `rust_decimal` reads (separators, exponents) are never
/// reached, and on texts of bounded length, on which its parser returns.
#[verifier::external_body]
pub(crate) fn parse_decimal(text: &str) -> (r: Result<(i128, u32), rust_decimal::Error>)
    requires
        is_numeral(text@),
        text@.len() <= MAX_TEXT_LENGTH,
    ensures
        match r {
            Ok((m, scale)) => decimal_from_text(text@) == Some((m as int, scale as int))
                && is_decimal(m as int, scale as int),
            Err(_) => decimal_from_text(text@) is None,
        },
{
    match Decimal::from_str(text) {
        Ok(d) => Ok((d.mantissa(), d.scale())),
        Err(e) => Err(e),
    }
}

/// Calls `Decimal::checked_mul` on the decimals built by `Decimal::from_i128_with_scale`.
/// Claimed: the outcome depends on the operands alone, and a product that comes back is
/// within the capacity that the type documents. Nothing is claimed of its value.
#[verifier::external_body]
pub(crate) fn multiply_decimals(am: i128, a_scale: u32, bm: i128, b_scale: u32) -> (r: Option<
    (i128, u32),
>)
    requires
        is_decimal(am as int, a_scale as int),
        is_decimal(bm as int, b_scale as int),
    ensures
        match r {
            Some((m, scale)) => decimal_product(
                am as int,
                a_scale as int,
                bm as int,
                b_scale as int,
            ) == Some((m as int, scale as int)) && is_decimal(m as int, scale as int),
            None => decimal_product(am as int, a_scale as int, bm as int, b_scale as int) is None,
        },
{
    let a = Decimal::from_i128_with_scale(am, a_scale);
    let b = Decimal::from_i128_with_scale(bm, b_scale);
    match a.checked_mul(b) {
        Some(p) => Some((p.mantissa(), p.scale())),
        None => None,
    }
}

/// Calls `Decimal::checked_div` on the decimals built by `Decimal::from_i128_with_scale`.
/// Claimed: the outcome depends on the operands alone, and a quotient that comes back is
/// within the capacity that the type documents. Nothing is claimed of its value.
#[verifier::external_body]
pub(crate) fn divide_decimals(am: i128, a_scale: u32, bm: i128, b_scale: u32) -> (r: Option<
    (i128, u32),
>)
    requires
        is_decimal(am as int, a_scale as int),
        is_decimal(bm as int, b_scale as int),
    ensures
        match r {
            Some((m, scale)) => decimal_quotient(
                am as int,
                a_scale as int,
                bm as int,
                b_scale as int,
            ) == Some((m as int, scale as int)) && is_decimal(m as int, scale as int),
            None => decimal_quotient(am as int, a_scale as int, bm as int, b_scale as int) is None,
        },
{
    let a = Decimal::from_i128_with_scale(am, a_scale);
    let b = Decimal::from_i128_with_scale(bm, b_scale);
    match a.checked_div(b) {
        Some(q) => Some((q.mantissa(), q.scale())),
        None => None,
    }
}

/// Writes the decimal built by `Decimal::from_i128_with_scale` with its `Display`.
/// Claimed: the text depends on mantissa and scale alone.
#[verifier::external_body]
pub(crate) fn decimal_to_string(m: i128, scale: u32) -> (r: String)
    requires
        is_decimal(m as int, scale as int),
    ensures
        r@ == decimal_text(m as int, scale as int),
{
    Decimal::from_i128_with_scale(m, scale).to_string()
}

} // verus!
