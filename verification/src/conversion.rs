//! Conversion requests: an amount and two units of one currency, and the exact conversion
//! of the amount through the currency's smallest denomination.

use vstd::prelude::*;
use crate::amount::{
    lemma_pow10_adds, lemma_pow10_positive, pow10, scaled_equal, Amount, AmountError, Quantity,
};
use crate::currency::{resolve, Unit, UnitError};

verus! {

/// Why a request was refused or could not be converted.
#[derive(Debug, PartialEq)]
pub enum ConversionError {
    /// The amount is not a numeral that the decimal arithmetic takes.
    InvalidAmount(AmountError),
    /// The amount cannot be scaled without overflow or loss of digits.
    UnableToConvertAmount,
    /// One of the unit tokens names no unit.
    InvalidUnit(UnitError),
    /// The two units are denominations of different currencies.
    IncompatibleUnits,
}

impl ConversionError {
    /// The line that tells a user of the error.
    pub open spec fn text(self) -> Seq<char> {
        match self {
            ConversionError::InvalidAmount(_) => "invalid amount, can only be numeric"@,
            ConversionError::UnableToConvertAmount =>
                "Unable to convert amount, either too large or too small"@,
            ConversionError::InvalidUnit(_) => "invalid unit, please check help for valid units"@,
            ConversionError::IncompatibleUnits =>
                "incompatible units, please only convert units of the same currency"@,
        }
    }

    /// Gives [`ConversionError::text`].
    pub fn message(&self) -> (r: &'static str)
        ensures
            r@ == self.text(),
    {
        match self {
            ConversionError::InvalidAmount(_) => "invalid amount, can only be numeric",
            ConversionError::UnableToConvertAmount =>
                "Unable to convert amount, either too large or too small",
            ConversionError::InvalidUnit(_) => "invalid unit, please check help for valid units",
            ConversionError::IncompatibleUnits =>
                "incompatible units, please only convert units of the same currency",
        }
    }
}

impl From<AmountError> for ConversionError {
    fn from(cause: AmountError) -> (r: ConversionError) {
        ConversionError::InvalidAmount(cause)
    }
}

impl vstd::std_specs::convert::FromSpecImpl<AmountError> for ConversionError {
    open spec fn obeys_from_spec() -> bool {
        true
    }

    open spec fn from_spec(cause: AmountError) -> ConversionError {
        ConversionError::InvalidAmount(cause)
    }
}

impl From<UnitError> for ConversionError {
    fn from(cause: UnitError) -> (r: ConversionError) {
        ConversionError::InvalidUnit(cause)
    }
}

impl vstd::std_specs::convert::FromSpecImpl<UnitError> for ConversionError {
    open spec fn obeys_from_spec() -> bool {
        true
    }

    open spec fn from_spec(cause: UnitError) -> ConversionError {
        ConversionError::InvalidUnit(cause)
    }
}

/// What a request holds.
pub struct Request {
    pub amount: Quantity,
    pub from_unit: Unit,
    pub to_unit: Unit,
}

/// An amount to convert from one unit into another unit of the same currency.
pub struct ConversionRequest {
    from_amount: Amount,
    from_unit: Unit,
    to_unit: Unit,
}

impl View for ConversionRequest {
    type V = Request;

    closed spec fn view(&self) -> Request {
        Request { amount: self.from_amount@, from_unit: self.from_unit, to_unit: self.to_unit }
    }
}

/// The whole number `n` as a quantity.
pub open spec fn whole(n: int) -> Quantity {
    Quantity { mantissa: n, scale: 0 }
}

/// The units that two tokens name, where both name one and the two are of one currency.
/// The source token is looked at first.
pub open spec fn unit_pair(from: Seq<char>, to: Seq<char>) -> Result<
    (Unit, Unit),
    ConversionError,
> {
    match resolve(from) {
        None => Err(ConversionError::InvalidUnit(UnitError::InvalidUnit)),
        Some(u) => match resolve(to) {
            None => Err(ConversionError::InvalidUnit(UnitError::InvalidUnit)),
            Some(v) => if u.currency() == v.currency() {
                Ok((u, v))
            } else {
                Err(ConversionError::IncompatibleUnits)
            },
        },
    }
}

/// What the validation makes of a parsed amount and two unit tokens: the first of amount,
/// source unit, target unit and currencies that is at fault decides the error.
pub open spec fn validated(
    parsed: Result<Amount, AmountError>,
    from: Seq<char>,
    to: Seq<char>,
) -> Result<(Amount, Unit, Unit), ConversionError> {
    match parsed {
        Err(e) => Err(ConversionError::InvalidAmount(e)),
        Ok(amount) => match unit_pair(from, to) {
            Ok((u, v)) => Ok((amount, u, v)),
            Err(e) => Err(e),
        },
    }
}

/// The request that three texts make, where they make one: the amount as the decimal
/// arithmetic reads it, and the two units, which are of one currency.
pub open spec fn accepted(
    from_amount: Seq<char>,
    from_unit: Seq<char>,
    to_unit: Seq<char>,
) -> Option<Request> {
    match (Quantity::read(from_amount), unit_pair(from_unit, to_unit)) {
        (Some(amount), Ok((u, v))) => Some(Request { amount, from_unit: u, to_unit: v }),
        _ => None,
    }
}

/// Whether `e` is the error that three texts are refused with. An amount at fault comes
/// before a unit at fault: it is `InvalidAmount`, with the cause for which the text is no
/// amount. Otherwise it is the error of the two unit tokens.
pub open spec fn refused_with(
    from_amount: Seq<char>,
    from_unit: Seq<char>,
    to_unit: Seq<char>,
    e: ConversionError,
) -> bool {
    match Quantity::read(from_amount) {
        Some(_) => unit_pair(from_unit, to_unit) == Err::<(Unit, Unit), ConversionError>(e),
        None => e matches ConversionError::InvalidAmount(cause) && cause.refuses(from_amount),
    }
}

/// The amount in its currency's smallest denomination: the product that the decimal
/// arithmetic gives for the amount and the unit's scale factor, where there is one and it is
/// exactly the amount times the factor.
pub open spec fn in_smallest_unit(amount: Quantity, from: Unit) -> Option<Quantity> {
    match amount.times(whole(from.scale_factor() as int)) {
        Some(p) => if p.is_ratio_of(amount, from.scale_factor() as int, 1) {
            Some(p)
        } else {
            None
        },
        None => None,
    }
}

/// An amount of smallest denominations in a unit: the quotient that the decimal arithmetic
/// gives for the amount and the unit's scale factor, where there is one and it is exactly
/// the amount over the factor.
pub open spec fn from_smallest_unit(smallest: Quantity, to: Unit) -> Option<Quantity> {
    match smallest.over(whole(to.scale_factor() as int)) {
        Some(q) => if q.is_ratio_of(smallest, 1, to.scale_factor() as int) {
            Some(q)
        } else {
            None
        },
        None => None,
    }
}

/// The conversion of an amount from one unit into another, through the smallest denomination.
pub open spec fn converted(amount: Quantity, from: Unit, to: Unit) -> Option<Quantity> {
    match in_smallest_unit(amount, from) {
        Some(smallest) => from_smallest_unit(smallest, to),
        None => None,
    }
}

impl ConversionRequest {
    #[verifier::type_invariant]
    spec fn one_currency(self) -> bool {
        self.from_unit.currency() == self.to_unit.currency()
    }

    /// Builds a request from the three texts of an invocation. The amount is read first,
    /// then the source unit, then the target unit; then the two units are held against
    /// each other, and the first of these that fails decides the error. The amount may
    /// carry one sign, `+` or `-`, before its digits.
    pub fn new(from_amount: &str, from_unit: &str, to_unit: &str) -> (r: Result<
        ConversionRequest,
        ConversionError,
    >)
        ensures
            match r {
                Ok(req) => accepted(from_amount@, from_unit@, to_unit@) == Some(req@),
                Err(e) => refused_with(from_amount@, from_unit@, to_unit@, e),
            },
            r matches Ok(req) ==> req@.from_unit.currency() == req@.to_unit.currency(),
    {
        match ConversionRequest::validate_conversion_request_params(
            from_amount,
            from_unit,
            to_unit,
        ) {
            Ok((from_amount, from_unit, to_unit)) => Ok(
                ConversionRequest { from_amount, from_unit, to_unit },
            ),
            Err(e) => Err(e),
        }
    }

    /// Reads the amount and validates it together with the two unit tokens.
    pub fn validate_conversion_request_params(
        from_amount: &str,
        from_unit: &str,
        to_unit: &str,
    ) -> (r: Result<(Amount, Unit, Unit), ConversionError>)
        ensures
            match r {
                Ok((amount, u, v)) => accepted(from_amount@, from_unit@, to_unit@) == Some(
                    Request { amount: amount@, from_unit: u, to_unit: v },
                ),
                Err(e) => refused_with(from_amount@, from_unit@, to_unit@, e),
            },
    {
        let parsed = Amount::parse(from_amount);
        ConversionRequest::validate_parsed(parsed, from_unit, to_unit)
    }

    /// Validates an amount as it came from parsing, together with the two unit tokens.
    pub fn validate_parsed(
        parsed: Result<Amount, AmountError>,
        from_unit: &str,
        to_unit: &str,
    ) -> (r: Result<(Amount, Unit, Unit), ConversionError>)
        ensures
            r == validated(parsed, from_unit@, to_unit@),
    {
        let from_amount = match parsed {
            Ok(a) => a,
            Err(e) => {
                return Err(ConversionError::from(e));
            },
        };
        let from_unit = match Unit::try_from(from_unit) {
            Ok(u) => u,
            Err(e) => {
                return Err(ConversionError::from(e));
            },
        };
        let to_unit = match Unit::try_from(to_unit) {
            Ok(u) => u,
            Err(e) => {
                return Err(ConversionError::from(e));
            },
        };
        if !Unit::belongs_to_same_currency(&from_unit, &to_unit) {
            return Err(ConversionError::IncompatibleUnits);
        }
        Ok((from_amount, from_unit, to_unit))
    }

    /// The amount to convert.
    pub fn amount(&self) -> (r: Amount)
        ensures
            r@ == self@.amount,
    {
        self.from_amount
    }

    /// The unit that the amount is given in.
    pub fn from_unit(&self) -> (r: Unit)
        ensures
            r == self@.from_unit,
            r.currency() == self@.to_unit.currency(),
    {
        proof {
            use_type_invariant(self);
        }
        self.from_unit
    }

    /// The unit that the amount is asked for in.
    pub fn to_unit(&self) -> (r: Unit)
        ensures
            r == self@.to_unit,
            r.currency() == self@.from_unit.currency(),
    {
        proof {
            use_type_invariant(self);
        }
        self.to_unit
    }

    /// Takes the product that the decimal arithmetic gave for an amount and the scale factor
    /// of its unit, and lets it pass only where it is exactly the amount times the factor.
    pub fn exact_product(amount: &Amount, from: &Unit, product: Option<Amount>) -> (r: Result<
        Amount,
        ConversionError,
    >)
        ensures
            r == match product {
                Some(p) => if p@.is_ratio_of(amount@, from.scale_factor() as int, 1) {
                    Ok::<Amount, ConversionError>(p)
                } else {
                    Err(ConversionError::UnableToConvertAmount)
                },
                None => Err(ConversionError::UnableToConvertAmount),
            },
    {
        match product {
            Some(p) => {
                let places = p.scale() + from.decimals();
                proof {
                    from.lemma_scale_factor_is_power_of_ten();
                    lemma_pow10_adds(p@.scale, from.decimals() as nat);
                    let f = from.scale_factor() as int;
                    let e = pow10(p@.scale);
                    let m = amount@.mantissa;
                    assert(m * f * e == m * (e * f)) by (nonlinear_arith);
                }
                if scaled_equal(p.mantissa(), amount.scale(), amount.mantissa(), places) {
                    Ok(p)
                } else {
                    Err(ConversionError::UnableToConvertAmount)
                }
            },
            None => Err(ConversionError::UnableToConvertAmount),
        }
    }

    /// Takes the quotient that the decimal arithmetic gave for an amount of smallest
    /// denominations and the scale factor of a unit, and lets it pass only where it is
    /// exactly the amount over the factor.
    pub fn exact_quotient(smallest: &Amount, to: &Unit, quotient: Option<Amount>) -> (r: Result<
        Amount,
        ConversionError,
    >)
        ensures
            r == match quotient {
                Some(q) => if q@.is_ratio_of(smallest@, 1, to.scale_factor() as int) {
                    Ok::<Amount, ConversionError>(q)
                } else {
                    Err(ConversionError::UnableToConvertAmount)
                },
                None => Err(ConversionError::UnableToConvertAmount),
            },
    {
        match quotient {
            Some(q) => {
                let places = smallest.scale() + to.decimals();
                proof {
                    to.lemma_scale_factor_is_power_of_ten();
                    lemma_pow10_adds(smallest@.scale, to.decimals() as nat);
                    let f = to.scale_factor() as int;
                    let e = pow10(smallest@.scale);
                    let m = q@.mantissa;
                    assert(m * f * e == m * (e * f)) by (nonlinear_arith);
                }
                if scaled_equal(q.mantissa(), places, smallest.mantissa(), q.scale()) {
                    Ok(q)
                } else {
                    Err(ConversionError::UnableToConvertAmount)
                }
            },
            None => Err(ConversionError::UnableToConvertAmount),
        }
    }

    /// Converts the amount into the target unit: times the source unit's scale factor, then
    /// over the target unit's. Either step fails where the decimal arithmetic overflows or
    /// would have to round, so a result is exactly the amount times the one factor over the
    /// other.
    pub fn convert(self) -> (r: Result<Amount, ConversionError>)
        ensures
            match r {
                Ok(a) => converted(self@.amount, self@.from_unit, self@.to_unit) == Some(a@),
                Err(e) => e == ConversionError::UnableToConvertAmount && converted(
                    self@.amount,
                    self@.from_unit,
                    self@.to_unit,
                ) is None,
            },
            r matches Ok(a) ==> a@.is_ratio_of(
                self@.amount,
                self@.from_unit.scale_factor() as int,
                self@.to_unit.scale_factor() as int,
            ),
    {
        let fa_mul = Amount::whole(self.from_unit.scale_factor());
        let product = self.from_amount.checked_mul(&fa_mul);
        let smallest = match ConversionRequest::exact_product(
            &self.from_amount,
            &self.from_unit,
            product,
        ) {
            Ok(s) => s,
            Err(e) => {
                return Err(e);
            },
        };
        let ta_div = Amount::whole(self.to_unit.scale_factor());
        let quotient = smallest.checked_div(&ta_div);
        match ConversionRequest::exact_quotient(&smallest, &self.to_unit, quotient) {
            Ok(a) => {
                proof {
                    lemma_converted_is_exact(self@.amount, self@.from_unit, self@.to_unit);
                }
                Ok(a)
            },
            Err(e) => Err(e),
        }
    }
}

/// Converting from a unit into the same unit, where it succeeds, gives the number that was
/// given, whatever the scale it comes back with.
pub proof fn lemma_convert_identity(amount: Quantity, unit: Unit)
    requires
        converted(amount, unit, unit) is Some,
    ensures
        converted(amount, unit, unit)->Some_0.same_value(amount),
{
    lemma_converted_is_exact(amount, unit, unit);
    unit.lemma_scale_factor_is_power_of_ten();
    let r = converted(amount, unit, unit)->Some_0;
    let f = unit.scale_factor() as int;
    let ea = pow10(amount.scale);
    let er = pow10(r.scale);
    assert(r.mantissa * ea == amount.mantissa * er) by (nonlinear_arith)
        requires
            r.mantissa * f * ea == amount.mantissa * f * er,
            f >= 1,
    ;
}

/// Converting into another unit of the same currency and back, where both conversions
/// succeed, gives the number that was given.
pub proof fn lemma_convert_round_trip(amount: Quantity, u: Unit, v: Unit)
    requires
        u.currency() == v.currency(),
        converted(amount, u, v) is Some,
        converted(converted(amount, u, v)->Some_0, v, u) is Some,
    ensures
        converted(converted(amount, u, v)->Some_0, v, u)->Some_0.same_value(amount),
{
    let there = converted(amount, u, v)->Some_0;
    let back = converted(there, v, u)->Some_0;
    lemma_converted_is_exact(amount, u, v);
    lemma_converted_is_exact(there, v, u);
    u.lemma_scale_factor_is_power_of_ten();
    v.lemma_scale_factor_is_power_of_ten();
    lemma_pow10_positive(there.scale);
    let f = u.scale_factor() as int;
    let g = v.scale_factor() as int;
    let ea = pow10(amount.scale);
    let et = pow10(there.scale);
    let eb = pow10(back.scale);
    assert(back.mantissa * ea == amount.mantissa * eb) by (nonlinear_arith)
        requires
            there.mantissa * g * ea == amount.mantissa * f * et,
            back.mantissa * f * et == there.mantissa * g * eb,
            f >= 1,
            et >= 1,
    ;
}

/// Two tokens that name units of different currencies make no request, whatever the amount:
/// where the amount is one that can be read, they are refused as incompatible units, and
/// where it is not, the amount is refused first.
pub proof fn lemma_family_gate(amount: Seq<char>, from: Seq<char>, to: Seq<char>)
    requires
        resolve(from) is Some,
        resolve(to) is Some,
        resolve(from)->Some_0.currency() != resolve(to)->Some_0.currency(),
    ensures
        accepted(amount, from, to) is None,
        Quantity::read(amount) is Some ==> forall|e: ConversionError|
            refused_with(amount, from, to, e) <==> e == ConversionError::IncompatibleUnits,
        Quantity::read(amount) is None ==> forall|e: ConversionError|
            refused_with(amount, from, to, e) ==> e is InvalidAmount,
        forall|parsed: Amount| #[trigger]
            validated(Ok(parsed), from, to) == Err::<(Amount, Unit, Unit), ConversionError>(
                ConversionError::IncompatibleUnits,
            ),
{
}

/// A conversion that succeeds gives exactly the amount times the source unit's scale factor
/// over the target unit's.
pub proof fn lemma_converted_is_exact(amount: Quantity, from: Unit, to: Unit)
    requires
        converted(amount, from, to) is Some,
    ensures
        converted(amount, from, to)->Some_0.is_ratio_of(
            amount,
            from.scale_factor() as int,
            to.scale_factor() as int,
        ),
{
    let p = in_smallest_unit(amount, from)->Some_0;
    let q = converted(amount, from, to)->Some_0;
    let f = from.scale_factor() as int;
    let g = to.scale_factor() as int;
    let ea = pow10(amount.scale);
    let ep = pow10(p.scale);
    let eq = pow10(q.scale);
    lemma_pow10_positive(p.scale);
    assert(q.mantissa * g * ea == amount.mantissa * f * eq) by (nonlinear_arith)
        requires
            p.mantissa * 1 * ea == amount.mantissa * f * ep,
            q.mantissa * g * ep == p.mantissa * 1 * eq,
            ep >= 1,
    ;
}

} // verus!
