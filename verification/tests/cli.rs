use crypto_units::cli::{_parse_arguments, conversion, help, parse_arguments, CliErrors, CliMethods};
use crypto_units::conversion::ConversionError;
use crypto_units::currency::UnitError;

fn args_of(tokens: &[&str]) -> Vec<String> {
    tokens.iter().map(|t| t.to_string()).collect()
}

#[test]
fn test_parse_args_select_convert() {
    let args = vec![
        "3400".to_string(),
        "BTC".to_string(),
        "to".to_string(),
        "satoshis".to_string(),
    ];
    let cli_method = _parse_arguments(&args).unwrap();
    assert_eq!(cli_method, CliMethods::Convert)
}

#[test]
fn test_parse_args_select_help() {
    let args = vec!["help".to_string()];
    let cli_method = _parse_arguments(&args).unwrap();
    assert_eq!(cli_method, CliMethods::HelpMessage)
}

#[test]
fn test_parse_args_empty() {
    let args = vec![];
    let cli_method = _parse_arguments(&args);
    assert!(cli_method.is_err());
    let err = cli_method.unwrap_err();
    assert_eq!(err, CliErrors::NoArguments);
}

#[test]
fn test_parse_args_invalid() {
    let args = vec!["lol".to_string()];
    let cli_method = _parse_arguments(&args);
    assert!(cli_method.is_err());
    let err = cli_method.unwrap_err();
    assert_eq!(err, CliErrors::InvalidArgument);
}

#[test]
fn two_and_three_arguments_are_invalid() {
    assert_eq!(_parse_arguments(&args_of(&["1", "btc"])), Err(CliErrors::InvalidArgument));
    assert_eq!(_parse_arguments(&args_of(&["1", "btc", "to"])), Err(CliErrors::InvalidArgument));
    assert_eq!(_parse_arguments(&args_of(&["help", "help"])), Err(CliErrors::InvalidArgument));
}

#[test]
fn five_arguments_are_invalid() {
    let args = args_of(&["1", "btc", "to", "satoshi", "now"]);
    assert_eq!(_parse_arguments(&args), Err(CliErrors::InvalidArgument));
}

#[test]
fn help_is_matched_case_sensitively() {
    assert_eq!(_parse_arguments(&args_of(&["Help"])), Err(CliErrors::InvalidArgument));
    assert_eq!(_parse_arguments(&args_of(&["HELP"])), Err(CliErrors::InvalidArgument));
    assert_eq!(_parse_arguments(&args_of(&["help "])), Err(CliErrors::InvalidArgument));
    assert_eq!(_parse_arguments(&args_of(&["hel"])), Err(CliErrors::InvalidArgument));
}

#[test]
fn third_argument_is_not_validated() {
    let args = args_of(&["1", "btc", "into", "satoshi"]);
    assert_eq!(_parse_arguments(&args), Ok(CliMethods::Convert));
    assert_eq!(conversion(&args), Ok("1 btc = 100000000 satoshi".to_string()));
}

#[test]
fn conversion_echoes_the_texts_as_typed() {
    let args = args_of(&["1.5", "BTC", "to", "Satoshi"]);
    assert_eq!(conversion(&args), Ok("1.5 BTC = 150000000.0 Satoshi".to_string()));
    let args = args_of(&["+01", "Satoshi", "to", "bTc"]);
    assert_eq!(conversion(&args), Ok("+01 Satoshi = 0.00000001 bTc".to_string()));
}

#[test]
fn conversion_reports_the_request_error() {
    let args = args_of(&["1", "btc", "to", "eth"]);
    assert_eq!(
        conversion(&args),
        Err(CliErrors::ConversionError(ConversionError::IncompatibleUnits))
    );
    let args = args_of(&["1", "btc", "to", "dogecoin"]);
    assert_eq!(
        conversion(&args),
        Err(CliErrors::ConversionError(ConversionError::InvalidUnit(UnitError::InvalidUnit)))
    );
    let args = args_of(&["abc", "btc", "to", "satoshi"]);
    assert!(matches!(
        conversion(&args),
        Err(CliErrors::ConversionError(ConversionError::InvalidAmount(_)))
    ));
}

#[test]
fn conversion_reports_an_amount_that_cannot_be_converted() {
    let args = args_of(&["79228162514264337593543950335", "btc", "to", "satoshi"]);
    assert_eq!(
        conversion(&args),
        Err(CliErrors::ConversionError(ConversionError::UnableToConvertAmount))
    );
}

#[test]
fn invocation_with_no_tokens_fails_with_no_arguments() {
    assert_eq!(parse_arguments(&args_of(&[])), Err(CliErrors::NoArguments));
}

#[test]
fn invocation_with_help_gives_the_usage_text() {
    let lines = parse_arguments(&args_of(&["help"])).unwrap();
    assert_eq!(lines, help());
    assert_eq!(lines.len(), 11);
    assert_eq!(lines[0], "[usage]: <amount> <unit> to <unit>");
    assert_eq!(lines[1], "");
    assert_eq!(
        lines[2],
        "amount: numeric value, can only contain digits and '.' to indicate decimal place"
    );
    assert_eq!(lines[3], "unit: can only contain units for a given cryptocurrency");
    assert_eq!(lines[4], "      possible values:");
    assert_eq!(lines[5], "          - Bitcoin:  btc, mbtc, bit, satoshi");
    assert_eq!(lines[6], "          - Ethereum: eth, finney, gwei, wei");
    assert_eq!(lines[7], "          - Solana:   sol, lamports");
    assert_eq!(lines[8], "");
    assert_eq!(lines[9], "example usage: 1.5 btc to satoshi");
    assert_eq!(lines[10], "");
}

#[test]
fn invocation_with_two_tokens_fails_with_invalid_argument() {
    assert_eq!(parse_arguments(&args_of(&["1", "btc"])), Err(CliErrors::InvalidArgument));
}

#[test]
fn invocation_with_four_tokens_gives_one_line() {
    let lines = parse_arguments(&args_of(&["21000000", "btc", "to", "satoshi"])).unwrap();
    assert_eq!(lines, vec!["21000000 btc = 2100000000000000 satoshi".to_string()]);
}

#[test]
fn invocation_with_four_tokens_reports_the_conversion_error() {
    assert_eq!(
        parse_arguments(&args_of(&["1", "sol", "to", "wei"])),
        Err(CliErrors::ConversionError(ConversionError::IncompatibleUnits))
    );
}

#[test]
fn conversion_errors_become_cli_errors() {
    assert_eq!(
        CliErrors::from(ConversionError::UnableToConvertAmount),
        CliErrors::ConversionError(ConversionError::UnableToConvertAmount)
    );
}

#[test]
fn cli_error_messages() {
    assert_eq!(CliErrors::NoArguments.message(), "no arguments were passed in");
    assert_eq!(
        CliErrors::InvalidArgument.message(),
        "invalid argument, please pass in <amount> <unit> to <unit>"
    );
    assert_eq!(
        CliErrors::ConversionError(ConversionError::IncompatibleUnits).message(),
        "incompatible units, please only convert units of the same currency"
    );
    assert_eq!(
        CliErrors::ConversionError(ConversionError::UnableToConvertAmount).message(),
        "Unable to convert amount, either too large or too small"
    );
}
