use vstd::prelude::*;

use crate::allocation::Balance;
use crate::config::same_text;
use crate::error::StrategyError;

verus! {

/// One wallet of the account as the exchange reports it, amounts in base units.
#[derive(Clone, Debug)]
pub struct WalletEntry {
    pub currency: String,
    pub wallet_type: String,
    pub balance: u64,
    pub available: Option<u64>,
}

pub open spec fn is_funding_wallet(w: WalletEntry, currency: Seq<char>) -> bool {
    w.currency@ == currency && w.wallet_type@ == "funding"@
}

/// `i` is the first funding wallet of `currency` in `wallets`.
pub open spec fn is_first_funding(wallets: Seq<WalletEntry>, currency: Seq<char>, i: int) -> bool {
    &&& 0 <= i < wallets.len()
    &&& is_funding_wallet(wallets[i], currency)
    &&& forall|j: int| 0 <= j < i ==> !is_funding_wallet(#[trigger] wallets[j], currency)
}

pub open spec fn balance_of_entry(w: WalletEntry) -> Result<Balance, StrategyError> {
    match w.available {
        None => Err(StrategyError::BalanceUnavailable),
        Some(a) => Ok(Balance { available: a, total: w.balance }),
    }
}

/// The balance of the first funding wallet of `currency`.
pub fn funding_balance(wallets: &Vec<WalletEntry>, currency: &str) -> (r: Result<
    Balance,
    StrategyError,
>)
    ensures
        (forall|i: int| 0 <= i < wallets@.len() ==> !is_funding_wallet(
            #[trigger] wallets@[i],
            currency@,
        )) ==> r == Err::<Balance, StrategyError>(StrategyError::NoFundingWallet),
        forall|i: int| is_first_funding(wallets@, currency@, i) ==> r == balance_of_entry(
            #[trigger] wallets@[i],
        ),
{
    let mut i: usize = 0;
    while i < wallets.len()
        invariant
            i <= wallets@.len(),
            forall|j: int| 0 <= j < i ==> !is_funding_wallet(#[trigger] wallets@[j], currency@),
        decreases wallets@.len() - i,
    {
        let w = &wallets[i];
        if same_text(w.currency.as_str(), currency) && same_text(w.wallet_type.as_str(), "funding") {
            return match w.available {
                None => Err(StrategyError::BalanceUnavailable),
                Some(a) => Ok(Balance { available: a, total: w.balance }),
            };
        }
        i = i + 1;
    }
    Err(StrategyError::NoFundingWallet)
}

} // verus!
