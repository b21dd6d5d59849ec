//! The command line: which action the arguments select, the line that answers a conversion,
//! and the usage text.

use vstd::prelude::*;
use vstd::string::StringExecFns;
use crate::amount::Quantity;
use crate::conversion::{accepted, converted, refused_with, ConversionError, ConversionRequest};
use crate::text::same_text;

verus! {

/// Why an invocation failed.
#[derive(Debug, PartialEq)]
pub enum CliErrors {
    /// Nothing was passed.
    NoArguments,
    /// The arguments are not of the shape `<amount> <unit> to <unit>`, nor the word `help`.
    InvalidArgument,
    /// The request was refused or could not be converted.
    ConversionError(ConversionError),
}

impl CliErrors {
    /// The line that tells a user of the error.
    pub open spec fn text(self) -> Seq<char> {
        match self {
            CliErrors::NoArguments => "no arguments were passed in"@,
            CliErrors::InvalidArgument =>
                "invalid argument, please pass in <amount> <unit> to <unit>"@,
            CliErrors::ConversionError(e) => e.text(),
        }
    }

    /// Gives [`CliErrors::text`].
    pub fn message(&self) -> (r: &'static str)
        ensures
            r@ == self.text(),
    {
        match self {
            CliErrors::NoArguments => "no arguments were passed in",
            CliErrors::InvalidArgument =>
                "invalid argument, please pass in <amount> <unit> to <unit>",
            CliErrors::ConversionError(e) => e.message(),
        }
    }
}

impl From<ConversionError> for CliErrors {
    fn from(cause: ConversionError) -> (r: CliErrors) {
        CliErrors::ConversionError(cause)
    }
}

impl vstd::std_specs::convert::FromSpecImpl<ConversionError> for CliErrors {
    open spec fn obeys_from_spec() -> bool {
        true
    }

    open spec fn from_spec(cause: ConversionError) -> CliErrors {
        CliErrors::ConversionError(cause)
    }
}

/// What an invocation asks for.
#[derive(Clone, Copy, Debug, PartialEq, Eq, Structural)]
pub enum CliMethods {
    /// The usage text.
    HelpMessage,
    /// A conversion.
    Convert,
}

/// The action that the arguments select, by their number: none is an error of its own; one
/// has to be the word `help`, in lower case; four are a conversion, whatever the third reads;
/// any other number is refused.
pub open spec fn selected(args: Seq<String>) -> Result<CliMethods, CliErrors> {
    if args.len() == 0 {
        Err(CliErrors::NoArguments)
    } else if args.len() == 1 {
        if args[0]@ == "help"@ {
            Ok(CliMethods::HelpMessage)
        } else {
            Err(CliErrors::InvalidArgument)
        }
    } else if args.len() == 4 {
        Ok(CliMethods::Convert)
    } else {
        Err(CliErrors::InvalidArgument)
    }
}

/// Selects the action for the arguments of an invocation, the program's name left out.
pub fn _parse_arguments(args: &Vec<String>) -> (r: Result<CliMethods, CliErrors>)
    ensures
        r == selected(args@),
{
    let n: usize = args.len();
    if n == 0 {
        Err(CliErrors::NoArguments)
    } else if n == 1 {
        if same_text(args[0].as_str(), "help") {
            Ok(CliMethods::HelpMessage)
        } else {
            Err(CliErrors::InvalidArgument)
        }
    } else if n == 4 {
        Ok(CliMethods::Convert)
    } else {
        Err(CliErrors::InvalidArgument)
    }
}

/// The line that answers a conversion: amount and source unit as they were typed, an equals
/// sign, the converted amount as the decimal arithmetic writes it, and the target unit as
/// it was typed.
pub open spec fn answer(
    amount: Seq<char>,
    from: Seq<char>,
    to: Seq<char>,
    result: Quantity,
) -> Seq<char> {
    amount + " "@ + from + " = "@ + result.written() + " "@ + to
}

/// The line that answers the conversion that three texts ask for, where they make a request
/// and its amount converts.
pub open spec fn answered(amount: Seq<char>, from: Seq<char>, to: Seq<char>) -> Option<Seq<char>> {
    match accepted(amount, from, to) {
        Some(req) => match converted(req.amount, req.from_unit, req.to_unit) {
            Some(result) => Some(answer(amount, from, to, result)),
            None => None,
        },
        None => None,
    }
}

/// Whether `e` is the error that the conversion that three texts ask for ends with: that of
/// the request where none is made, and else that the amount cannot be converted.
pub open spec fn failed_with(
    amount: Seq<char>,
    from: Seq<char>,
    to: Seq<char>,
    e: ConversionError,
) -> bool {
    match accepted(amount, from, to) {
        Some(req) => e == ConversionError::UnableToConvertAmount && converted(
            req.amount,
            req.from_unit,
            req.to_unit,
        ) is None,
        None => refused_with(amount, from, to, e),
    }
}

/// Converts as four arguments ask, `<amount> <unit> to <unit>`, and gives the line to
/// print. The third argument is not looked at.
pub fn conversion(args: &Vec<String>) -> (r: Result<String, CliErrors>)
    requires
        args.len() >= 4,
    ensures
        match r {
            Ok(line) => answered(args[0]@, args[1]@, args[3]@) == Some(line@),
            Err(CliErrors::ConversionError(e)) => failed_with(args[0]@, args[1]@, args[3]@, e),
            Err(_) => false,
        },
{
    let fa = args[0].as_str();
    let fu = args[1].as_str();
    let tu = args[3].as_str();
    let cr = match ConversionRequest::new(fa, fu, tu) {
        Ok(cr) => cr,
        Err(e) => {
            return Err(CliErrors::from(e));
        },
    };
    let result = match cr.convert() {
        Ok(a) => a,
        Err(e) => {
            return Err(CliErrors::from(e));
        },
    };
    let mut line = String::from_str(fa);
    line.append(" ");
    line.append(fu);
    line.append(" = ");
    line.append(result.to_text().as_str());
    line.append(" ");
    line.append(tu);
    Ok(line)
}

/// The usage text, line by line.
pub open spec fn usage() -> Seq<Seq<char>> {
    seq![
        "[usage]: <amount> <unit> to <unit>"@,
        ""@,
        "amount: numeric value, can only contain digits and '.' to indicate decimal place"@,
        "unit: can only contain units for a given cryptocurrency"@,
        "      possible values:"@,
        "          - Bitcoin:  btc, mbtc, bit, satoshi"@,
        "          - Ethereum: eth, finney, gwei, wei"@,
        "          - Solana:   sol, lamports"@,
        ""@,
        "example usage: 1.5 btc to satoshi"@,
        ""@,
    ]
}

/// Whether `lines` hold the texts of `of`, one for one.
pub open spec fn reads(lines: Seq<String>, of: Seq<Seq<char>>) -> bool {
    &&& lines.len() == of.len()
    &&& forall|i: int| 0 <= i < lines.len() ==> (#[trigger] lines[i])@ == of[i]
}

/// The usage text, a line to print in each entry.
pub fn help() -> (lines: Vec<String>)
    ensures
        reads(lines@, usage()),
{
    let mut lines: Vec<String> = Vec::new();
    lines.push(String::from_str("[usage]: <amount> <unit> to <unit>"));
    lines.push(String::from_str(""));
    lines.push(
        String::from_str(
            "amount: numeric value, can only contain digits and '.' to indicate decimal place",
        ),
    );
    lines.push(String::from_str("unit: can only contain units for a given cryptocurrency"));
    lines.push(String::from_str("      possible values:"));
    lines.push(String::from_str("          - Bitcoin:  btc, mbtc, bit, satoshi"));
    lines.push(String::from_str("          - Ethereum: eth, finney, gwei, wei"));
    lines.push(String::from_str("          - Solana:   sol, lamports"));
    lines.push(String::from_str(""));
    lines.push(String::from_str("example usage: 1.5 btc to satoshi"));
    lines.push(String::from_str(""));
    lines
}

/// Answers an invocation: selects the action for the arguments, the program's name left out,
/// carries it out and gives the lines to print. A conversion gives its one line, `help` the
/// usage text.
pub fn parse_arguments(args: &Vec<String>) -> (r: Result<Vec<String>, CliErrors>)
    ensures
        match selected(args@) {
            Err(e) => r == Err::<Vec<String>, CliErrors>(e),
            Ok(CliMethods::HelpMessage) => r matches Ok(lines) && reads(lines@, usage()),
            Ok(CliMethods::Convert) => match r {
                Ok(lines) => answered(args[0]@, args[1]@, args[3]@) matches Some(line) && reads(
                    lines@,
                    seq![line],
                ),
                Err(CliErrors::ConversionError(e)) => failed_with(
                    args[0]@,
                    args[1]@,
                    args[3]@,
                    e,
                ),
                Err(_) => false,
            },
        },
{
    let cli_method = match _parse_arguments(args) {
        Ok(m) => m,
        Err(e) => {
            return Err(e);
        },
    };
    match cli_method {
        CliMethods::Convert => {
            let line = match conversion(args) {
                Ok(line) => line,
                Err(e) => {
                    return Err(e);
                },
            };
            let mut lines: Vec<String> = Vec::new();
            lines.push(line);
            Ok(lines)
        },
        CliMethods::HelpMessage => Ok(help()),
    }
}

} // verus!
