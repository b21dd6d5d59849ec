//! Amounts: exact decimal numbers of bounded capacity, and exact comparison between them.
//!
//! An amount is read, multiplied, divided and written by `rust_decimal`, here called the
//! decimal arithmetic, which is reached through [`crate::decimal`]. What it returns is not
//! proved; what is proved is the comparison of amounts, by which its results are accepted
//! or refused.

use vstd::prelude::*;
use vstd::arithmetic::power::{lemma_pow_adds, lemma_pow_positive, pow};
use crate::decimal::{
    decimal_from_text, decimal_product, decimal_quotient, decimal_text, decimal_to_string,
    divide_decimals, multiply_decimals, parse_decimal, MAX_TEXT_LENGTH,
};
use crate::text::{is_decimal_numeral, is_numeral};

verus! {

/// The largest magnitude that the integer part of an amount can have: two to the 96th, less one.
pub const MAX_MANTISSA: i128 = 79_228_162_514_264_337_593_543_950_335;

/// The largest number of fractional digits that an amount can have.
pub const MAX_SCALE: u32 = 28;

/// Ten to the power `e`.
pub open spec fn pow10(e: nat) -> int {
    pow(10, e)
}

/// The number `mantissa / 10^scale`.
pub struct Quantity {
    pub mantissa: int,
    pub scale: nat,
}

impl Quantity {
    /// Whether this number is `other * num / den`, stated without division:
    /// `self * den == other * num`, both sides brought to a common power of ten.
    pub open spec fn is_ratio_of(self, other: Quantity, num: int, den: int) -> bool {
        self.mantissa * den * pow10(other.scale) == other.mantissa * num * pow10(self.scale)
    }

    /// Whether two pairs of mantissa and scale stand for the same number.
    pub open spec fn same_value(self, other: Quantity) -> bool {
        self.mantissa * pow10(other.scale) == other.mantissa * pow10(self.scale)
    }

    /// Whether mantissa and scale are within the capacity of an [`Amount`].
    pub open spec fn fits(self) -> bool {
        -MAX_MANTISSA <= self.mantissa <= MAX_MANTISSA && self.scale <= MAX_SCALE
    }

    /// The number that the decimal arithmetic reads from a text, where the text is a numeral
    /// of no more than [`MAX_TEXT_LENGTH`] characters and the arithmetic takes it.
    pub open spec fn read(text: Seq<char>) -> Option<Quantity> {
        if is_numeral(text) && text.len() <= MAX_TEXT_LENGTH {
            match decimal_from_text(text) {
                Some((m, scale)) => Some(Quantity { mantissa: m, scale: scale as nat }),
                None => None,
            }
        } else {
            None
        }
    }

    /// What the decimal arithmetic gives for `self * other`, if anything.
    pub open spec fn times(self, other: Quantity) -> Option<Quantity> {
        match decimal_product(
            self.mantissa,
            self.scale as int,
            other.mantissa,
            other.scale as int,
        ) {
            Some((m, scale)) => Some(Quantity { mantissa: m, scale: scale as nat }),
            None => None,
        }
    }

    /// What the decimal arithmetic gives for `self / other`, if anything.
    pub open spec fn over(self, other: Quantity) -> Option<Quantity> {
        match decimal_quotient(
            self.mantissa,
            self.scale as int,
            other.mantissa,
            other.scale as int,
        ) {
            Some((m, scale)) => Some(Quantity { mantissa: m, scale: scale as nat }),
            None => None,
        }
    }

    /// How the decimal arithmetic writes this number.
    pub open spec fn written(self) -> Seq<char> {
        decimal_text(self.mantissa, self.scale as int)
    }
}

/// Why a text was refused as an amount.
#[derive(Debug, PartialEq)]
pub enum AmountError {
    /// The text is not a numeral: see [`is_numeral`].
    NotNumeric,
    /// The text is a numeral of more than [`MAX_TEXT_LENGTH`] characters.
    TooLong,
    /// The text is a numeral that the decimal arithmetic does not take; its reason is kept.
    Rejected(rust_decimal::Error),
}

impl AmountError {
    /// Whether this is the cause for which `text` is refused as an amount. The grammar comes
    /// first, then the length, then the decimal arithmetic.
    pub open spec fn refuses(self, text: Seq<char>) -> bool {
        match self {
            AmountError::NotNumeric => !is_numeral(text),
            AmountError::TooLong => is_numeral(text) && text.len() > MAX_TEXT_LENGTH,
            AmountError::Rejected(_) => is_numeral(text) && text.len() <= MAX_TEXT_LENGTH
                && decimal_from_text(text) is None,
        }
    }
}

/// Ten to any power is at least one.
pub proof fn lemma_pow10_positive(e: nat)
    ensures
        pow10(e) >= 1,
{
    lemma_pow_positive(10, e);
}

/// Ten to the zero is one, and one more in the exponent is ten times as much.
pub proof fn lemma_pow10_step(e: nat)
    ensures
        pow10(0) == 1,
        pow10(e + 1) == 10 * pow10(e),
{
    reveal(pow);
}

/// Ten to a sum is the product of the powers.
pub proof fn lemma_pow10_adds(a: nat, b: nat)
    ensures
        pow10(a + b) == pow10(a) * pow10(b),
{
    lemma_pow_adds(10, a, b);
}

/// A common power of ten can be taken off both sides of an equation.
pub proof fn lemma_pow10_cancels(x: int, d: nat, y: int, c: nat)
    ensures
        (x * pow10(d + c) == y * pow10(c)) <==> (x * pow10(d) == y),
{
    lemma_pow10_adds(d, c);
    lemma_pow10_positive(c);
    let p = pow10(d);
    let q = pow10(c);
    assert((x * (p * q) == y * q) <==> (x * p == y)) by (nonlinear_arith)
        requires
            q >= 1,
    ;
}

/// To stand for the same number is an equivalence between pairs of mantissa and scale.
pub proof fn lemma_same_value_is_equivalence(a: Quantity, b: Quantity, c: Quantity)
    ensures
        a.same_value(a),
        a.same_value(b) ==> b.same_value(a),
        a.same_value(b) && b.same_value(c) ==> a.same_value(c),
{
    lemma_pow10_positive(b.scale);
    let ea = pow10(a.scale);
    let eb = pow10(b.scale);
    let ec = pow10(c.scale);
    assert(a.mantissa * eb == b.mantissa * ea && b.mantissa * ec == c.mantissa * eb ==> a.mantissa
        * ec == c.mantissa * ea) by (nonlinear_arith)
        requires
            eb >= 1,
    ;
}

/// `x * 10^d`, or `None` where that does not fit in an `i128`.
pub fn times_pow10(x: i128, d: u32) -> (r: Option<i128>)
    ensures
        match r {
            Some(v) => v == x * pow10(d as nat),
            None => x * pow10(d as nat) < i128::MIN || x * pow10(d as nat) > i128::MAX,
        },
{
    let mut acc: i128 = x;
    let mut i: u32 = 0;
    proof {
        lemma_pow10_step(0);
    }
    while i < d
        invariant
            i <= d,
            acc == x * pow10(i as nat),
        decreases d - i,
    {
        let ghost p = pow10(i as nat);
        let ghost rest = pow10((d - i - 1) as nat);
        proof {
            lemma_pow10_step(i as nat);
            lemma_pow10_adds((i + 1) as nat, (d - i - 1) as nat);
            lemma_pow10_positive((d - i - 1) as nat);
            assert(acc * 10 == x * (10 * p)) by (nonlinear_arith)
                requires
                    acc == x * p,
            ;
            assert(x * (pow10((i + 1) as nat) * rest) == (acc * 10) * rest) by (nonlinear_arith)
                requires
                    acc * 10 == x * pow10((i + 1) as nat),
            ;
        }
        match acc.checked_mul(10) {
            Some(v) => {
                acc = v;
            },
            None => {
                proof {
                    let y = acc * 10;
                    assert(y * rest < i128::MIN || y * rest > i128::MAX) by (nonlinear_arith)
                        requires
                            y < i128::MIN || y > i128::MAX,
                            rest >= 1,
                    ;
                }
                return None;
            },
        }
        i += 1;
    }
    Some(acc)
}

/// Whether `x * 10^dx == y * 10^dy`, decided without leaving the `i128` range.
pub fn scaled_equal(x: i128, dx: u32, y: i128, dy: u32) -> (r: bool)
    ensures
        r == (x * pow10(dx as nat) == y * pow10(dy as nat)),
{
    if dx >= dy {
        let lifted = times_pow10(x, dx - dy);
        proof {
            lemma_pow10_cancels(x as int, (dx - dy) as nat, y as int, dy as nat);
        }
        match lifted {
            Some(v) => v == y,
            None => false,
        }
    } else {
        let lifted = times_pow10(y, dy - dx);
        proof {
            lemma_pow10_cancels(y as int, (dy - dx) as nat, x as int, dx as nat);
        }
        match lifted {
            Some(v) => v == x,
            None => false,
        }
    }
}

/// An exact decimal number: an integer of at most 96 bits, with a sign, over a power of ten
/// of at most 28.
#[derive(Clone, Copy, Debug)]
pub struct Amount {
    mantissa: i128,
    scale: u32,
}

impl View for Amount {
    type V = Quantity;

    closed spec fn view(&self) -> Quantity {
        Quantity { mantissa: self.mantissa as int, scale: self.scale as nat }
    }
}

/// Amounts are equal where they are the same number: `1.5` equals `1.50`.
impl PartialEq for Amount {
    fn eq(&self, other: &Amount) -> (r: bool) {
        self.same_value(other)
    }
}

impl vstd::std_specs::cmp::PartialEqSpecImpl for Amount {
    open spec fn obeys_eq_spec() -> bool {
        true
    }

    open spec fn eq_spec(&self, other: &Amount) -> bool {
        self@.same_value(other@)
    }
}

impl Amount {
    #[verifier::type_invariant]
    spec fn within_capacity(self) -> bool {
        self@.fits()
    }

    /// The amount `mantissa / 10^scale`, if it is within capacity.
    pub fn new(mantissa: i128, scale: u32) -> (r: Option<Amount>)
        ensures
            match r {
                Some(a) => a@ == (Quantity { mantissa: mantissa as int, scale: scale as nat })
                    && a@.fits(),
                None => !(Quantity { mantissa: mantissa as int, scale: scale as nat }).fits(),
            },
    {
        if -MAX_MANTISSA <= mantissa && mantissa <= MAX_MANTISSA && scale <= MAX_SCALE {
            Some(Amount { mantissa, scale })
        } else {
            None
        }
    }

    /// The integer that, divided by ten to the scale, gives the amount.
    pub fn mantissa(&self) -> (r: i128)
        ensures
            r == self@.mantissa,
            -MAX_MANTISSA <= r <= MAX_MANTISSA,
    {
        proof {
            use_type_invariant(self);
        }
        self.mantissa
    }

    /// The number of fractional digits.
    pub fn scale(&self) -> (r: u32)
        ensures
            r == self@.scale,
            r <= MAX_SCALE,
    {
        proof {
            use_type_invariant(self);
        }
        self.scale
    }

    /// The whole number `n`.
    pub fn whole(n: u64) -> (r: Amount)
        ensures
            r@ == (Quantity { mantissa: n as int, scale: 0 }),
    {
        Amount { mantissa: n as i128, scale: 0 }
    }

    /// Reads an amount from a text. The text has to be a numeral, an optional sign and then
    /// digits with at most one decimal point, of no more than [`MAX_TEXT_LENGTH`]
    /// characters, and the decimal arithmetic has to take it. The amount is the one that the
    /// decimal arithmetic reads: it rounds digits that lie beyond the capacity of an amount.
    pub fn parse(text: &str) -> (r: Result<Amount, AmountError>)
        ensures
            match r {
                Ok(a) => Quantity::read(text@) == Some(a@),
                Err(cause) => cause.refuses(text@),
            },
    {
        if !is_decimal_numeral(text) {
            return Err(AmountError::NotNumeric);
        }
        if text.unicode_len() > MAX_TEXT_LENGTH {
            return Err(AmountError::TooLong);
        }
        match parse_decimal(text) {
            Ok((mantissa, scale)) => Ok(Amount { mantissa, scale }),
            Err(e) => Err(AmountError::Rejected(e)),
        }
    }

    /// The product that the decimal arithmetic gives, if any. It may have been rounded.
    pub fn checked_mul(&self, other: &Amount) -> (r: Option<Amount>)
        ensures
            match r {
                Some(p) => self@.times(other@) == Some(p@),
                None => self@.times(other@) is None,
            },
    {
        proof {
            use_type_invariant(self);
            use_type_invariant(other);
        }
        match multiply_decimals(self.mantissa, self.scale, other.mantissa, other.scale) {
            Some((mantissa, scale)) => Some(Amount { mantissa, scale }),
            None => None,
        }
    }

    /// The quotient that the decimal arithmetic gives, if any. It may have been rounded.
    pub fn checked_div(&self, other: &Amount) -> (r: Option<Amount>)
        ensures
            match r {
                Some(q) => self@.over(other@) == Some(q@),
                None => self@.over(other@) is None,
            },
    {
        proof {
            use_type_invariant(self);
            use_type_invariant(other);
        }
        match divide_decimals(self.mantissa, self.scale, other.mantissa, other.scale) {
            Some((mantissa, scale)) => Some(Amount { mantissa, scale }),
            None => None,
        }
    }

    /// The amount as the decimal arithmetic writes it.
    pub fn to_text(&self) -> (r: String)
        ensures
            r@ == self@.written(),
    {
        proof {
            use_type_invariant(self);
        }
        decimal_to_string(self.mantissa, self.scale)
    }

    /// Whether two amounts are the same number, whatever their scales.
    pub fn same_value(&self, other: &Amount) -> (r: bool)
        ensures
            r == self@.same_value(other@),
    {
        scaled_equal(self.mantissa, other.scale, other.mantissa, self.scale)
    }
}

} // verus!
