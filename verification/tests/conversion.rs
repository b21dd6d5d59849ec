use crypto_units::amount::{Amount, AmountError};
use crypto_units::conversion::{ConversionError, ConversionRequest};
use crypto_units::currency::{Unit, UnitError};
use rust_decimal::Decimal;
use std::str::FromStr;

const TOKENS: [(&str, Unit); 10] = [
    ("btc", Unit::BTC),
    ("mbtc", Unit::MBTC),
    ("bit", Unit::BIT),
    ("satoshi", Unit::SATS),
    ("eth", Unit::ETH),
    ("finney", Unit::FIN),
    ("gwei", Unit::GWEI),
    ("wei", Unit::WEI),
    ("sol", Unit::SOL),
    ("lamports", Unit::LAM),
];

fn decimal_of(a: Amount) -> Decimal {
    Decimal::from_i128_with_scale(a.mantissa(), a.scale())
}

fn amount(mantissa: i128, scale: u32) -> Amount {
    Amount::new(mantissa, scale).unwrap()
}

fn convert(text: &str, from: &str, to: &str) -> Result<Amount, ConversionError> {
    ConversionRequest::new(text, from, to).unwrap().convert()
}

#[test]
fn test_convert_same_currency() {
    let c = ConversionRequest::new("1.5", "btc", "satoshi").unwrap();
    let r = c.convert().unwrap();
    assert_eq!(decimal_of(r), Decimal::new(150_000_000, 0));

    let c = ConversionRequest::new("21000000", "btc", "satoshi").unwrap();
    let r = c.convert().unwrap();
    assert_eq!(decimal_of(r), Decimal::new(2_100_000_000_000_000, 0));

    let c = ConversionRequest::new("1", "satoshi", "btc").unwrap();
    let r = c.convert().unwrap();
    assert_eq!(decimal_of(r), Decimal::new(1, 8));
}

#[test]
fn convert_gives_exact_amounts() {
    assert_eq!(convert("1.5", "btc", "satoshi"), Ok(amount(150_000_000, 0)));
    assert_eq!(convert("21000000", "btc", "satoshi"), Ok(amount(2_100_000_000_000_000, 0)));
    assert_eq!(convert("1", "satoshi", "btc"), Ok(amount(1, 8)));
    assert_eq!(convert("1", "eth", "wei"), Ok(amount(1_000_000_000_000_000_000, 0)));
    assert_eq!(convert("1", "wei", "eth"), Ok(amount(1, 18)));
    assert_eq!(convert("2.5", "eth", "finney"), Ok(amount(2_500, 0)));
    assert_eq!(convert("3", "gwei", "finney"), Ok(amount(3, 6)));
    assert_eq!(convert("0.25", "sol", "lamports"), Ok(amount(250_000_000, 0)));
    assert_eq!(convert("1", "mbtc", "bit"), Ok(amount(1_000, 0)));
    assert_eq!(convert("-4", "bit", "btc"), Ok(amount(-4, 6)));
    assert_eq!(convert("0", "btc", "satoshi"), Ok(amount(0, 0)));
}

#[test]
fn request_holds_what_was_asked() {
    let c = ConversionRequest::new("1.50", "BTC", "Satoshi").unwrap();
    assert_eq!(c.amount().mantissa(), 150);
    assert_eq!(c.amount().scale(), 2);
    assert_eq!(c.from_unit(), Unit::BTC);
    assert_eq!(c.to_unit(), Unit::SATS);
}

#[test]
fn units_of_different_currencies_are_incompatible() {
    let r = ConversionRequest::new("1", "btc", "eth");
    assert_eq!(r.err(), Some(ConversionError::IncompatibleUnits));
}

#[test]
fn amount_that_is_no_numeral_is_invalid() {
    let r = ConversionRequest::new("abc", "btc", "satoshi");
    assert_eq!(r.err(), Some(ConversionError::InvalidAmount(AmountError::NotNumeric)));
}

#[test]
fn every_pair_of_units_is_gated_by_family() {
    for (from, u) in TOKENS {
        for (to, v) in TOKENS {
            let r = ConversionRequest::new("1", from, to);
            if u.currency() == v.currency() {
                let c = r.unwrap();
                assert_eq!(c.from_unit(), u);
                assert_eq!(c.to_unit(), v);
            } else {
                assert_eq!(r.err(), Some(ConversionError::IncompatibleUnits));
            }
        }
    }
}

#[test]
fn family_gate_holds_whatever_the_amount() {
    let texts =
        ["0", "-1", "1.5", "79228162514264337593543950335", "0.0000000000000000000000000001"];
    for text in texts {
        let r = ConversionRequest::new(text, "sol", "satoshi");
        assert_eq!(r.err(), Some(ConversionError::IncompatibleUnits));
    }
}

#[test]
fn the_amount_is_judged_before_the_units() {
    let r = ConversionRequest::new("abc", "btc", "eth");
    assert_eq!(r.err(), Some(ConversionError::InvalidAmount(AmountError::NotNumeric)));
    let r = ConversionRequest::new("abc", "dogecoin", "eth");
    assert_eq!(r.err(), Some(ConversionError::InvalidAmount(AmountError::NotNumeric)));
}

#[test]
fn unknown_units_are_invalid() {
    let r = ConversionRequest::new("1", "dogecoin", "btc");
    assert_eq!(r.err(), Some(ConversionError::InvalidUnit(UnitError::InvalidUnit)));
    let r = ConversionRequest::new("1", "btc", "dogecoin");
    assert_eq!(r.err(), Some(ConversionError::InvalidUnit(UnitError::InvalidUnit)));
    let r = ConversionRequest::new("1", "dogecoin", "shiba");
    assert_eq!(r.err(), Some(ConversionError::InvalidUnit(UnitError::InvalidUnit)));
}

#[test]
fn numeral_too_large_for_an_amount_is_invalid() {
    let r = ConversionRequest::new("79228162514264337593543950336", "btc", "satoshi");
    assert!(matches!(
        r.err(),
        Some(ConversionError::InvalidAmount(AmountError::Rejected(_)))
    ));
}

#[test]
fn numeral_too_long_for_the_decimal_arithmetic_is_invalid() {
    let text = "0".repeat(100_000);
    let r = ConversionRequest::new(&text, "btc", "satoshi");
    assert_eq!(r.err(), Some(ConversionError::InvalidAmount(AmountError::TooLong)));
}

#[test]
fn validation_of_a_parsed_amount() {
    let one = amount(1, 0);
    assert_eq!(
        ConversionRequest::validate_parsed(Ok(one), "ETH", "wei"),
        Ok((one, Unit::ETH, Unit::WEI))
    );
    assert_eq!(
        ConversionRequest::validate_parsed(Err(AmountError::NotNumeric), "eth", "wei"),
        Err(ConversionError::InvalidAmount(AmountError::NotNumeric))
    );
    assert_eq!(
        ConversionRequest::validate_parsed(Err(AmountError::NotNumeric), "eth", "btc"),
        Err(ConversionError::InvalidAmount(AmountError::NotNumeric))
    );
    assert_eq!(
        ConversionRequest::validate_parsed(Ok(one), "eth", "btc"),
        Err(ConversionError::IncompatibleUnits)
    );
    assert_eq!(
        ConversionRequest::validate_parsed(Ok(one), "ether", "btc"),
        Err(ConversionError::InvalidUnit(UnitError::InvalidUnit))
    );
    assert_eq!(
        ConversionRequest::validate_conversion_request_params("7", "Sol", "LAMPORTS"),
        Ok((amount(7, 0), Unit::SOL, Unit::LAM))
    );
}

#[test]
fn conversion_into_the_same_unit_keeps_the_amount() {
    for (token, _) in TOKENS {
        for text in ["0", "1", "1.5", "-21000000", "0.00000001", "123456789.123456789"] {
            let given = Amount::parse(text).unwrap();
            assert_eq!(convert(text, token, token), Ok(given));
        }
    }
}

#[test]
fn conversion_there_and_back_keeps_the_amount() {
    for (from, u) in TOKENS {
        for (to, v) in TOKENS {
            if u.currency() != v.currency() {
                continue;
            }
            for text in ["0", "1", "1.5", "-21000000", "0.001", "123456789.5"] {
                let given = Amount::parse(text).unwrap();
                let there = convert(text, from, to).unwrap();
                let back = convert(&there.to_text(), to, from).unwrap();
                assert_eq!(back, given);
            }
        }
    }
}

#[test]
fn conversion_agrees_with_plain_decimal_arithmetic() {
    let texts = [
        "0", "1", "-1", "1.5", "0.1", "0.00000001", "0.000000000000000001", "123456789",
        "21000000", "0.123456789012345678", "99999999999.99999999", "-0.5", "1000000000000000000",
        "7.0000", "79228162514264337593543950335", "0.0000000000000000000000000001",
        "792281625142643375935.43950335", "3.1415926535897932384626433832",
    ];
    for (from, u) in TOKENS {
        for (to, v) in TOKENS {
            if u.currency() != v.currency() {
                continue;
            }
            for text in texts {
                let amount = Decimal::from_str(text).unwrap();
                let plain = amount
                    .checked_mul(Decimal::from(u.scale_factor()))
                    .and_then(|smallest| smallest.checked_div(Decimal::from(v.scale_factor())));
                match convert(text, from, to) {
                    Ok(a) => {
                        let d = plain.unwrap();
                        assert_eq!((a.mantissa(), a.scale()), (d.mantissa(), d.scale()));
                    }
                    Err(e) => assert_eq!(e, ConversionError::UnableToConvertAmount),
                }
            }
        }
    }
}

#[test]
fn overflow_is_unable_to_convert() {
    assert_eq!(
        convert("79228162514264337593543950335", "btc", "satoshi"),
        Err(ConversionError::UnableToConvertAmount)
    );
    assert_eq!(
        convert("79228162514264337593543950335", "btc", "btc"),
        Err(ConversionError::UnableToConvertAmount)
    );
    assert_eq!(
        convert("-79228162514264337593", "eth", "wei"),
        Err(ConversionError::UnableToConvertAmount)
    );
}

#[test]
fn loss_of_digits_is_unable_to_convert() {
    assert_eq!(
        convert("0.0000000000000000000000000001", "satoshi", "btc"),
        Err(ConversionError::UnableToConvertAmount)
    );
    assert_eq!(
        convert("0.00000000001", "wei", "eth"),
        Err(ConversionError::UnableToConvertAmount)
    );
    assert_eq!(
        convert("1.0000000000000000000000000001", "lamports", "sol"),
        Err(ConversionError::UnableToConvertAmount)
    );
}

#[test]
fn amounts_at_the_limits_of_capacity_convert() {
    assert_eq!(convert("0.00000000000000000001", "satoshi", "btc"), Ok(amount(1, 28)));
    assert_eq!(convert("0.0000000001", "wei", "eth"), Ok(amount(1, 28)));
    assert_eq!(
        convert("792281625142643375935", "btc", "satoshi"),
        Ok(amount(79_228_162_514_264_337_593_500_000_000, 0))
    );
    assert_eq!(
        convert("792281625142643375935.43950335", "btc", "satoshi"),
        Ok(amount(79_228_162_514_264_337_593_543_950_335, 0))
    );
    assert_eq!(
        convert("-79228162514.264337593543950335", "eth", "wei"),
        Ok(amount(-79_228_162_514_264_337_593_543_950_335, 0))
    );
    assert_eq!(
        convert("79228162514264337593543950335", "wei", "eth"),
        Ok(amount(79_228_162_514_264_337_593_543_950_335, 18))
    );
}

#[test]
fn product_passes_only_where_exact() {
    let given = amount(15, 1);
    let exact = amount(150_000_000, 0);
    let exact_at_scale_one = amount(1_500_000_000, 1);
    let off_by_one = amount(150_000_001, 0);
    let unchanged = amount(15, 1);
    assert_eq!(ConversionRequest::exact_product(&given, &Unit::BTC, Some(exact)), Ok(exact));
    let r = ConversionRequest::exact_product(&given, &Unit::BTC, Some(exact_at_scale_one)).unwrap();
    assert_eq!((r.mantissa(), r.scale()), (1_500_000_000, 1));
    assert_eq!(
        ConversionRequest::exact_product(&given, &Unit::BTC, Some(off_by_one)),
        Err(ConversionError::UnableToConvertAmount)
    );
    assert_eq!(
        ConversionRequest::exact_product(&given, &Unit::BTC, Some(unchanged)),
        Err(ConversionError::UnableToConvertAmount)
    );
    assert_eq!(
        ConversionRequest::exact_product(&given, &Unit::BTC, None),
        Err(ConversionError::UnableToConvertAmount)
    );
    assert_eq!(ConversionRequest::exact_product(&given, &Unit::SATS, Some(unchanged)), Ok(given));
}

#[test]
fn quotient_passes_only_where_exact() {
    let smallest = amount(1, 0);
    let exact = amount(1, 8);
    let exact_with_zeros = amount(100, 10);
    let rounded = amount(0, 8);
    let unchanged = amount(1, 0);
    assert_eq!(ConversionRequest::exact_quotient(&smallest, &Unit::BTC, Some(exact)), Ok(exact));
    assert_eq!(
        ConversionRequest::exact_quotient(&smallest, &Unit::BTC, Some(exact_with_zeros)),
        Ok(exact)
    );
    assert_eq!(
        ConversionRequest::exact_quotient(&smallest, &Unit::BTC, Some(rounded)),
        Err(ConversionError::UnableToConvertAmount)
    );
    assert_eq!(
        ConversionRequest::exact_quotient(&smallest, &Unit::BTC, Some(unchanged)),
        Err(ConversionError::UnableToConvertAmount)
    );
    assert_eq!(
        ConversionRequest::exact_quotient(&smallest, &Unit::BTC, None),
        Err(ConversionError::UnableToConvertAmount)
    );
    assert_eq!(
        ConversionRequest::exact_quotient(&smallest, &Unit::LAM, Some(unchanged)),
        Ok(smallest)
    );
}

#[test]
fn exactness_is_decided_at_the_limits_of_capacity() {
    let most = 79_228_162_514_264_337_593_543_950_335;
    let max = amount(most, 28);
    let min = amount(-most, 0);
    assert_eq!(
        ConversionRequest::exact_product(&max, &Unit::ETH, Some(amount(most, 10))),
        Ok(amount(most, 10))
    );
    assert_eq!(
        ConversionRequest::exact_product(&max, &Unit::ETH, Some(amount(most - 1, 10))),
        Err(ConversionError::UnableToConvertAmount)
    );
    assert_eq!(
        ConversionRequest::exact_quotient(&min, &Unit::ETH, Some(amount(-most, 18))),
        Ok(amount(-most, 18))
    );
    assert_eq!(
        ConversionRequest::exact_quotient(&min, &Unit::ETH, Some(amount(most, 18))),
        Err(ConversionError::UnableToConvertAmount)
    );
    assert_eq!(
        ConversionRequest::exact_quotient(&min, &Unit::ETH, Some(max)),
        Err(ConversionError::UnableToConvertAmount)
    );
}

#[test]
fn causes_become_conversion_errors() {
    assert_eq!(
        ConversionError::from(AmountError::NotNumeric),
        ConversionError::InvalidAmount(AmountError::NotNumeric)
    );
    assert_eq!(
        ConversionError::from(UnitError::InvalidUnit),
        ConversionError::InvalidUnit(UnitError::InvalidUnit)
    );
}

#[test]
fn conversion_error_messages() {
    assert_eq!(
        ConversionError::InvalidAmount(AmountError::NotNumeric).message(),
        "invalid amount, can only be numeric"
    );
    assert_eq!(
        ConversionError::UnableToConvertAmount.message(),
        "Unable to convert amount, either too large or too small"
    );
    assert_eq!(
        ConversionError::InvalidUnit(UnitError::InvalidUnit).message(),
        "invalid unit, please check help for valid units"
    );
    assert_eq!(
        ConversionError::IncompatibleUnits.message(),
        "incompatible units, please only convert units of the same currency"
    );
}
