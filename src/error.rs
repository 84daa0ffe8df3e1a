use vstd::prelude::*;

verus! {

/// Why a poll cycle could not reach a decision.
#[derive(Clone, Copy, Debug, PartialEq, Eq, Structural)]
pub enum StrategyError {
    /// A requested candle rank exceeds the number of candles asked for, or is
    /// zero for a window that holds candles.
    InvalidParameter,
    /// Fewer candles came back than the requested rank needs.
    InsufficientData,
    /// The account holds no funding wallet for the currency.
    NoFundingWallet,
    /// The funding wallet reports no available balance.
    BalanceUnavailable,
    /// The currency has no configured minimum offer size.
    UnknownCurrency,
}

} // verus!
