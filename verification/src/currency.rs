//! The registry of units: the closed set of denominations, the currency each belongs to,
//! its size in the currency's smallest denomination, and the resolution of unit tokens.

use vstd::prelude::*;
use crate::amount::{lemma_pow10_step, pow10};
use crate::text::{ascii_lower, lowercase, reads_as};

verus! {

/// Why a unit token was refused.
#[derive(Clone, Copy, Debug, PartialEq, Eq, Structural)]
pub enum UnitError {
    /// The token names no known unit.
    InvalidUnit,
}

impl UnitError {
    /// The line that tells a user of the error.
    pub open spec fn text(self) -> Seq<char> {
        "Invalid Unit, please check help for correct list of units"@
    }

    /// Gives [`UnitError::text`].
    pub fn message(&self) -> (r: &'static str)
        ensures
            r@ == self.text(),
    {
        "Invalid Unit, please check help for correct list of units"
    }
}

/// The currencies whose denominations are known.
#[derive(Clone, Copy, Debug, PartialEq, Eq, Structural)]
pub enum CryptoCurrency {
    Bitcoin,
    Ethereum,
    Solana,
}

/// One denomination of a currency.
#[derive(Clone, Copy, Debug, PartialEq, Eq, Hash, Structural)]
pub enum Unit {
    BTC,
    MBTC,
    BIT,
    SATS,
    ETH,
    GWEI,
    WEI,
    FIN,
    SOL,
    LAM,
}

impl Unit {
    /// The currency that this unit is a denomination of.
    pub open spec fn spec_currency(&self) -> CryptoCurrency {
        match self {
            Unit::BTC | Unit::MBTC | Unit::BIT | Unit::SATS => CryptoCurrency::Bitcoin,
            Unit::ETH | Unit::GWEI | Unit::WEI | Unit::FIN => CryptoCurrency::Ethereum,
            Unit::SOL | Unit::LAM => CryptoCurrency::Solana,
        }
    }

    /// How many of its currency's smallest denomination make one of this unit.
    pub open spec fn spec_scale_factor(&self) -> u64 {
        match self {
            Unit::BTC => 100_000_000,
            Unit::MBTC => 100_000,
            Unit::BIT => 100,
            Unit::SATS => 1,
            Unit::ETH => 1_000_000_000_000_000_000,
            Unit::GWEI => 1_000_000_000,
            Unit::WEI => 1,
            Unit::FIN => 1_000_000_000_000_000,
            Unit::SOL => 1_000_000_000,
            Unit::LAM => 1,
        }
    }

    /// The number of decimal places by which this unit lies above its currency's smallest
    /// denomination.
    pub open spec fn spec_decimals(&self) -> u32 {
        match self {
            Unit::BTC => 8,
            Unit::MBTC => 5,
            Unit::BIT => 2,
            Unit::SATS => 0,
            Unit::ETH => 18,
            Unit::GWEI => 9,
            Unit::WEI => 0,
            Unit::FIN => 15,
            Unit::SOL => 9,
            Unit::LAM => 0,
        }
    }

    /// Every scale factor is ten to the unit's number of decimal places.
    pub proof fn lemma_scale_factor_is_power_of_ten(self)
        ensures
            self.scale_factor() == pow10(self.decimals() as nat),
            self.scale_factor() >= 1,
    {
        lemma_pow10_step(0);
        lemma_pow10_step(1);
        assert(pow10(2) == 100);
        lemma_pow10_step(2);
        lemma_pow10_step(3);
        lemma_pow10_step(4);
        assert(pow10(5) == 100_000);
        lemma_pow10_step(5);
        lemma_pow10_step(6);
        lemma_pow10_step(7);
        assert(pow10(8) == 100_000_000);
        lemma_pow10_step(8);
        assert(pow10(9) == 1_000_000_000);
        lemma_pow10_step(9);
        lemma_pow10_step(10);
        lemma_pow10_step(11);
        lemma_pow10_step(12);
        lemma_pow10_step(13);
        lemma_pow10_step(14);
        assert(pow10(15) == 1_000_000_000_000_000);
        lemma_pow10_step(15);
        lemma_pow10_step(16);
        lemma_pow10_step(17);
        assert(pow10(18) == 1_000_000_000_000_000_000);
    }

    /// The token that names this unit, in lower case.
    pub open spec fn token(self) -> Seq<char> {
        match self {
            Unit::BTC => "btc"@,
            Unit::MBTC => "mbtc"@,
            Unit::BIT => "bit"@,
            Unit::SATS => "satoshi"@,
            Unit::ETH => "eth"@,
            Unit::GWEI => "gwei"@,
            Unit::WEI => "wei"@,
            Unit::FIN => "finney"@,
            Unit::SOL => "sol"@,
            Unit::LAM => "lamports"@,
        }
    }

    /// Gives [`Unit::token`].
    pub fn name(&self) -> (r: &'static str)
        ensures
            r@ == self.token(),
    {
        match self {
            Unit::BTC => "btc",
            Unit::MBTC => "mbtc",
            Unit::BIT => "bit",
            Unit::SATS => "satoshi",
            Unit::ETH => "eth",
            Unit::GWEI => "gwei",
            Unit::WEI => "wei",
            Unit::FIN => "finney",
            Unit::SOL => "sol",
            Unit::LAM => "lamports",
        }
    }

    /// How many of its currency's smallest denomination make one of this unit.
    #[verifier::when_used_as_spec(spec_scale_factor)]
    pub fn scale_factor(&self) -> (r: u64)
        ensures
            r == self.spec_scale_factor(),
    {
        match self {
            Unit::BTC => 100_000_000,
            Unit::MBTC => 100_000,
            Unit::BIT => 100,
            Unit::SATS => 1,
            Unit::ETH => 1_000_000_000_000_000_000,
            Unit::GWEI => 1_000_000_000,
            Unit::WEI => 1,
            Unit::FIN => 1_000_000_000_000_000,
            Unit::SOL => 1_000_000_000,
            Unit::LAM => 1,
        }
    }

    /// The number of decimal places by which this unit lies above its currency's smallest
    /// denomination.
    #[verifier::when_used_as_spec(spec_decimals)]
    pub fn decimals(&self) -> (r: u32)
        ensures
            r == self.spec_decimals(),
    {
        match self {
            Unit::BTC => 8,
            Unit::MBTC => 5,
            Unit::BIT => 2,
            Unit::SATS => 0,
            Unit::ETH => 18,
            Unit::GWEI => 9,
            Unit::WEI => 0,
            Unit::FIN => 15,
            Unit::SOL => 9,
            Unit::LAM => 0,
        }
    }

    /// The currency that this unit is a denomination of.
    #[verifier::when_used_as_spec(spec_currency)]
    pub fn currency(&self) -> (r: CryptoCurrency)
        ensures
            r == self.spec_currency(),
    {
        match self {
            Unit::BTC | Unit::MBTC | Unit::BIT | Unit::SATS => CryptoCurrency::Bitcoin,
            Unit::ETH | Unit::GWEI | Unit::WEI | Unit::FIN => CryptoCurrency::Ethereum,
            Unit::SOL | Unit::LAM => CryptoCurrency::Solana,
        }
    }

    /// Whether two units are denominations of one currency.
    pub fn belongs_to_same_currency(a: &Unit, b: &Unit) -> (r: bool)
        ensures
            r == (a.currency() == b.currency()),
    {
        a.currency() == b.currency()
    }
}

/// The unit that a token names. Tokens are written in lower case; each unit has one.
pub open spec fn unit_named(token: Seq<char>) -> Option<Unit> {
    if token == "btc"@ {
        Some(Unit::BTC)
    } else if token == "satoshi"@ {
        Some(Unit::SATS)
    } else if token == "mbtc"@ {
        Some(Unit::MBTC)
    } else if token == "bit"@ {
        Some(Unit::BIT)
    } else if token == "eth"@ {
        Some(Unit::ETH)
    } else if token == "gwei"@ {
        Some(Unit::GWEI)
    } else if token == "wei"@ {
        Some(Unit::WEI)
    } else if token == "finney"@ {
        Some(Unit::FIN)
    } else if token == "sol"@ {
        Some(Unit::SOL)
    } else if token == "lamports"@ {
        Some(Unit::LAM)
    } else {
        None
    }
}

/// The unit that a text names, whatever the case of its letters.
pub open spec fn resolve(text: Seq<char>) -> Option<Unit> {
    unit_named(lowercase(text))
}

/// Every unit is named by its own token, and by no other unit's: no token hides another.
pub proof fn lemma_token_names_its_unit(u: Unit)
    ensures
        unit_named(u.token()) == Some(u),
        resolve(u.token()) == Some(u),
{
    reveal_strlit("btc");
    reveal_strlit("satoshi");
    reveal_strlit("mbtc");
    reveal_strlit("bit");
    reveal_strlit("eth");
    reveal_strlit("gwei");
    reveal_strlit("wei");
    reveal_strlit("finney");
    reveal_strlit("sol");
    reveal_strlit("lamports");
    assert("btc"@[0] == 'b' && "btc"@[1] == 't');
    assert("bit"@[0] == 'b' && "bit"@[1] == 'i');
    assert("eth"@[0] == 'e');
    assert("wei"@[0] == 'w');
    assert("sol"@[0] == 's');
    assert("mbtc"@[0] == 'm');
    assert("gwei"@[0] == 'g');
    assert(lowercase(u.token()) =~= u.token());
}

/// A text names a unit exactly where its lower-case form is the unit's token: the units
/// have no other names.
pub proof fn lemma_resolve_is_by_token(text: Seq<char>, u: Unit)
    ensures
        resolve(text) == Some(u) <==> lowercase(text) == u.token(),
{
    lemma_token_names_its_unit(u);
}

/// Two texts that differ at most in the case of their ASCII letters name the same unit,
/// or both name none.
pub proof fn lemma_resolve_ignores_case(a: Seq<char>, b: Seq<char>)
    requires
        a.len() == b.len(),
        forall|i: int| 0 <= i < a.len() ==> ascii_lower(a[i]) == ascii_lower(b[i]),
    ensures
        resolve(a) == resolve(b),
{
    assert(lowercase(a) =~= lowercase(b));
}

/// Resolves a unit token without regard to the case of its ASCII letters.
pub fn str_to_unit(value: &str) -> (r: Result<Unit, UnitError>)
    ensures
        r == match resolve(value@) {
            Some(u) => Ok::<Unit, UnitError>(u),
            None => Err(UnitError::InvalidUnit),
        },
{
    if reads_as(value, "btc") {
        Ok(Unit::BTC)
    } else if reads_as(value, "satoshi") {
        Ok(Unit::SATS)
    } else if reads_as(value, "mbtc") {
        Ok(Unit::MBTC)
    } else if reads_as(value, "bit") {
        Ok(Unit::BIT)
    } else if reads_as(value, "eth") {
        Ok(Unit::ETH)
    } else if reads_as(value, "gwei") {
        Ok(Unit::GWEI)
    } else if reads_as(value, "wei") {
        Ok(Unit::WEI)
    } else if reads_as(value, "finney") {
        Ok(Unit::FIN)
    } else if reads_as(value, "sol") {
        Ok(Unit::SOL)
    } else if reads_as(value, "lamports") {
        Ok(Unit::LAM)
    } else {
        Err(UnitError::InvalidUnit)
    }
}

impl TryFrom<&str> for Unit {
    type Error = UnitError;

    fn try_from(value: &str) -> (r: Result<Unit, UnitError>) {
        str_to_unit(value)
    }
}

impl vstd::std_specs::convert::TryFromSpecImpl<&str> for Unit {
    open spec fn obeys_try_from_spec() -> bool {
        true
    }

    open spec fn try_from_spec(value: &str) -> Result<Unit, UnitError> {
        match resolve(value@) {
            Some(u) => Ok(u),
            None => Err(UnitError::InvalidUnit),
        }
    }
}

} // verus!
