use vstd::prelude::*;

use crate::allocation::UNIT;
use crate::error::StrategyError;

verus! {

/// Rates are integers in millionths of a millionth (a rate of 0.0005 is
/// 500_000_000).
pub const RATE_SCALE: u64 = 1_000_000_000_000;

/// The threshold rate used when none is configured: 0.0005.
pub const DEFAULT_THRESHOLD_RATE: u64 = 500_000_000;

/// The number of candles asked for when none is configured.
pub const DEFAULT_CANDLE_LIMIT: u64 = 97;

/// The currencies with a known minimum offer size.
#[derive(Clone, Copy, Debug, PartialEq, Eq, Structural)]
pub enum Currency {
    Usd,
    Sol,
    Btc,
    Usdt,
}

/// Whether two strings hold the same characters.
pub fn same_text(a: &str, b: &str) -> (r: bool)
    ensures
        r == (a@ == b@),
{
    let n = a.unicode_len();
    if n != b.unicode_len() {
        return false;
    }
    let mut i: usize = 0;
    while i < n
        invariant
            n == a@.len(),
            n == b@.len(),
            i <= n,
            forall|k: int| 0 <= k < i ==> a@[k] == b@[k],
        decreases n - i,
    {
        if a.get_char(i) != b.get_char(i) {
            return false;
        }
        i = i + 1;
    }
    assert(a@ =~= b@);
    true
}

pub open spec fn currency_of(symbol: Seq<char>) -> Option<Currency> {
    if symbol == "USD"@ {
        Some(Currency::Usd)
    } else if symbol == "SOL"@ {
        Some(Currency::Sol)
    } else if symbol == "BTC"@ {
        Some(Currency::Btc)
    } else if symbol == "USDT"@ {
        Some(Currency::Usdt)
    } else {
        None
    }
}

/// Smallest offer, in base units, that the exchange accepts per currency.
pub open spec fn minimum_of(currency: Currency) -> u64 {
    match currency {
        Currency::Usd => 15_000_000_000,
        Currency::Sol => UNIT,
        Currency::Btc => 2000,
        Currency::Usdt => 15_000_000_000,
    }
}

impl Currency {
    /// The currency a symbol such as `"USD"` names.
    pub fn from_symbol(symbol: &str) -> (r: Option<Currency>)
        ensures
            r == currency_of(symbol@),
    {
        if same_text(symbol, "USD") {
            Some(Currency::Usd)
        } else if same_text(symbol, "SOL") {
            Some(Currency::Sol)
        } else if same_text(symbol, "BTC") {
            Some(Currency::Btc)
        } else if same_text(symbol, "USDT") {
            Some(Currency::Usdt)
        } else {
            None
        }
    }

    /// The smallest offer the exchange accepts, in base units.
    pub fn minimum(self) -> (r: u64)
        ensures
            r == minimum_of(self),
    {
        match self {
            Currency::Usd => 15_000_000_000,
            Currency::Sol => UNIT,
            Currency::Btc => 2000,
            Currency::Usdt => 15_000_000_000,
        }
    }
}

/// The minimum offer for a currency symbol.
pub fn minimum_for_symbol(symbol: &str) -> (r: Result<u64, StrategyError>)
    ensures
        currency_of(symbol@) is None ==> r == Err::<u64, StrategyError>(
            StrategyError::UnknownCurrency,
        ),
        currency_of(symbol@) matches Some(c) ==> r == Ok::<u64, StrategyError>(minimum_of(c)),
{
    match Currency::from_symbol(symbol) {
        None => Err(StrategyError::UnknownCurrency),
        Some(c) => Ok(c.minimum()),
    }
}

} // verus!
