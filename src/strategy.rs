use vstd::prelude::*;

use crate::allocation::{
    allocate, allocation_of, effective_of, is_below_minimum, submitted_amount, submitted_amount_of, Allocation, Balance,
    MAX_AMOUNT,
};
use crate::error::StrategyError;
use crate::estimator::{estimate_of, nth_highest, rank_valid};
use crate::reconcile::{
    offered_rate, offered_rate_of, reconcile_existing, reconcile_one, reconciliation_of, sole,
    sole_offer, ActiveOffer, Reconciliation,
};

verus! {

/// Rank estimated when little of the wallet is in use.
pub const LONG_RANK: u64 = 3;

/// Offer period, in days, when little of the wallet is in use.
pub const LONG_PERIOD: u32 = 120;

/// Rank estimated when much of the wallet is in use, or the long rate is too low.
pub const SHORT_RANK: u64 = 10;

/// Offer period, in days, for the short tier.
pub const SHORT_PERIOD: u32 = 2;

/// Thresholds fixed for the life of the process.
#[derive(Clone, Copy, Debug, PartialEq, Eq, Structural)]
pub struct Config {
    /// Smallest offer for the currency, in base units.
    pub minimum: u64,
    /// A long-tier estimate under this rate falls back to the short tier.
    pub threshold_rate: u64,
    /// Number of candles asked for per estimate.
    pub candle_limit: u64,
}

impl Config {
    pub open spec fn in_range(self) -> bool {
        self.minimum <= MAX_AMOUNT
    }
}

/// The two rate tiers: a long commitment at a near-peak rate, or a short
/// commitment at a more conservative rate.
#[derive(Clone, Copy, Debug, PartialEq, Eq, Structural)]
pub enum Tier {
    Long,
    Short,
}

pub open spec fn rank_of(tier: Tier) -> u64 {
    match tier {
        Tier::Long => LONG_RANK,
        Tier::Short => SHORT_RANK,
    }
}

pub open spec fn period_of(tier: Tier) -> u32 {
    match tier {
        Tier::Long => LONG_PERIOD,
        Tier::Short => SHORT_PERIOD,
    }
}

impl Tier {
    /// The candle rank this tier estimates.
    pub fn rank(self) -> (r: u64)
        ensures
            r == rank_of(self),
    {
        match self {
            Tier::Long => LONG_RANK,
            Tier::Short => SHORT_RANK,
        }
    }

    /// The offer period, in days, of this tier.
    pub fn period(self) -> (r: u32)
        ensures
            r == period_of(self),
    {
        match self {
            Tier::Long => LONG_PERIOD,
            Tier::Short => SHORT_PERIOD,
        }
    }
}

/// The parameters of one candle-history request.
#[derive(Clone, Debug)]
pub struct CandleParams {
    /// Candle timeframe.
    pub tf: String,
    /// Rank of the high to estimate.
    pub n: u64,
    /// Number of candles to ask for.
    pub limit: u64,
    /// Funding period, in days, whose candles are asked for.
    pub period: u32,
}

impl Default for CandleParams {
    fn default() -> (r: CandleParams)
        ensures
            r.tf@ == "15m"@,
            r.n == SHORT_RANK,
            r.limit == 97,
            r.period == 2,
    {
        CandleParams { tf: String::from_str("15m"), n: SHORT_RANK, limit: 97, period: 2 }
    }
}

/// A cycle waiting for a candle window: the lendable amount, the single
/// open offer if any, and the tier whose rank is to be estimated.
#[derive(Clone, Copy, Debug, PartialEq, Eq, Structural)]
pub struct Pending {
    pub tier: Tier,
    pub lend: u64,
    pub existing: Option<ActiveOffer>,
}

impl Pending {
    pub open spec fn in_range(self) -> bool {
        self.lend <= 3 * MAX_AMOUNT
    }

    /// The candle request this cycle waits for.
    pub fn candle_params(&self, config: &Config) -> (r: CandleParams)
        ensures
            r.tf@ == "15m"@,
            r.n == rank_of(self.tier),
            r.limit == config.candle_limit,
            r.period == 2,
    {
        let mut params = CandleParams::default();
        params.n = self.tier.rank();
        params.limit = config.candle_limit;
        params
    }
}

/// A new offer to submit.
#[derive(Clone, Copy, Debug, PartialEq, Eq, Structural)]
pub struct OfferRequest {
    /// Amount in base units.
    pub amount: i64,
    pub rate: u64,
    /// Period in days.
    pub period: u32,
}

/// What a cycle ends with.
#[derive(Clone, Copy, Debug, PartialEq, Eq, Structural)]
pub enum Action {
    /// Only `effective` is available or on offer, too little: wait for the next cycle.
    Wait { effective: u64 },
    /// The open offer is good: leave it.
    Hold,
    /// Cancel every open offer; a new one is decided next cycle.
    Cancel,
    /// Submit a new offer.
    Submit(OfferRequest),
}

/// Where a cycle stands after each event.
#[derive(Clone, Copy, Debug, PartialEq, Eq, Structural)]
pub enum Step {
    /// The cycle ends with this action.
    Act(Action),
    /// The cycle needs the candle window that `Pending::candle_params` describes.
    Fetch(Pending),
    /// The cycle is abandoned.
    Fail(StrategyError),
}

pub open spec fn offers_in_range(offers: Seq<ActiveOffer>) -> bool {
    forall|i: int| 0 <= i < offers.len() ==> #[trigger] offers[i].amount <= MAX_AMOUNT
}

/// Amount held by the single open offer, nothing if none.
pub open spec fn on_offer_of(existing: Option<ActiveOffer>) -> u64 {
    match existing {
        Some(offer) => offer.amount,
        None => 0,
    }
}

/// Ask for the tier's candles, unless its rank does not fit the window.
pub open spec fn request_or_fail(config: Config, pending: Pending) -> Step {
    if rank_valid(rank_of(pending.tier), config.candle_limit) {
        Step::Fetch(pending)
    } else {
        Step::Fail(StrategyError::InvalidParameter)
    }
}

/// The first step of a cycle, from the wallet balance and the open offers.
pub open spec fn cycle_start(config: Config, balance: Balance, offers: Seq<ActiveOffer>) -> Step {
    if offers.len() > 1 {
        Step::Act(Action::Cancel)
    } else {
        let existing = sole_offer(offers);
        match allocation_of(balance, on_offer_of(existing), config.minimum) {
            Allocation::BelowMinimum { effective } => Step::Act(Action::Wait { effective }),
            Allocation::Lendable { lend, low_utilization, .. } => request_or_fail(
                config,
                Pending {
                    tier: if low_utilization {
                        Tier::Long
                    } else {
                        Tier::Short
                    },
                    lend,
                    existing,
                },
            ),
        }
    }
}

/// The action for a final offered rate.
pub open spec fn settle(pending: Pending, rate: u64) -> Action {
    match reconcile_one(pending.existing, rate) {
        Reconciliation::Cancel => Action::Cancel,
        Reconciliation::Hold => Action::Hold,
        Reconciliation::Submit => Action::Submit(
            OfferRequest {
                amount: submitted_amount_of(pending.lend) as i64,
                rate,
                period: period_of(pending.tier),
            },
        ),
    }
}

/// The step after the candle window of a pending cycle arrives.
pub open spec fn cycle_after_candles(config: Config, pending: Pending, highs: Seq<u64>) -> Step {
    match estimate_of(highs, rank_of(pending.tier), config.candle_limit) {
        Err(e) => Step::Fail(e),
        Ok(high) => if pending.tier == Tier::Long && high < config.threshold_rate {
            request_or_fail(config, Pending { tier: Tier::Short, ..pending })
        } else {
            Step::Act(settle(pending, offered_rate_of(high) as u64))
        },
    }
}

/// A step that asks for candles asks for a rank that fits the window.
pub open spec fn step_well_formed(config: Config, step: Step) -> bool {
    step matches Step::Fetch(p) ==> p.in_range() && rank_valid(rank_of(p.tier), config.candle_limit)
}

fn request_or_fail_exec(config: &Config, pending: Pending) -> (r: Step)
    requires
        pending.in_range(),
    ensures
        r == request_or_fail(*config, pending),
        step_well_formed(*config, r),
{
    let rank = pending.tier.rank();
    if rank > config.candle_limit {
        Step::Fail(StrategyError::InvalidParameter)
    } else {
        Step::Fetch(pending)
    }
}

/// Starts a cycle from the wallet balance and the open offers.
pub fn start_cycle(config: &Config, balance: Balance, offers: &Vec<ActiveOffer>) -> (r: Step)
    requires
        config.in_range(),
        balance.in_range(),
        offers_in_range(offers@),
    ensures
        r == cycle_start(*config, balance, offers@),
        step_well_formed(*config, r),
{
    if offers.len() > 1 {
        return Step::Act(Action::Cancel);
    }
    let existing = sole(offers);
    let on_offer = match existing {
        Some(offer) => offer.amount,
        None => 0,
    };
    match allocate(balance, on_offer, config.minimum) {
        Allocation::BelowMinimum { effective } => Step::Act(Action::Wait { effective }),
        Allocation::Lendable { lend, low_utilization, .. } => {
            let tier = if low_utilization {
                Tier::Long
            } else {
                Tier::Short
            };
            request_or_fail_exec(config, Pending { tier, lend, existing })
        },
    }
}

fn settle_exec(pending: &Pending, rate: u64) -> (r: Action)
    requires
        pending.in_range(),
    ensures
        r == settle(*pending, rate),
{
    match reconcile_existing(pending.existing, rate) {
        Reconciliation::Cancel => Action::Cancel,
        Reconciliation::Hold => Action::Hold,
        Reconciliation::Submit => Action::Submit(
            OfferRequest {
                amount: submitted_amount(pending.lend),
                rate,
                period: pending.tier.period(),
            },
        ),
    }
}

/// Continues a pending cycle with the highs of the candle window it asked for.
pub fn after_candles(config: &Config, pending: &Pending, highs: &Vec<u64>) -> (r: Step)
    requires
        pending.in_range(),
    ensures
        r == cycle_after_candles(*config, *pending, highs@),
        step_well_formed(*config, r),
{
    match nth_highest(highs, pending.tier.rank(), config.candle_limit) {
        Err(e) => Step::Fail(e),
        Ok(high) => {
            if pending.tier == Tier::Long && high < config.threshold_rate {
                request_or_fail_exec(config, Pending { tier: Tier::Short, ..*pending })
            } else {
                Step::Act(settle_exec(pending, offered_rate(high)))
            }
        },
    }
}

/// With at most one open offer, a wallet whose available funds plus the
/// amount on offer fall under the minimum plus one unit always waits: no
/// candle is asked for, so no rate can change the outcome.
pub proof fn lemma_below_minimum_waits(config: Config, balance: Balance, offers: Seq<ActiveOffer>)
    requires
        offers.len() <= 1,
        is_below_minimum(
            effective_of(balance.available, on_offer_of(sole_offer(offers))),
            config.minimum,
        ),
    ensures
        cycle_start(config, balance, offers) == Step::Act(
            Action::Wait {
                effective: effective_of(balance.available, on_offer_of(sole_offer(offers))) as u64,
            },
        ),
{
}

/// Two or more open offers are always all cancelled, whatever the balance,
/// and whatever rate a new offer would ask.
pub proof fn lemma_several_offers_cancelled(
    config: Config,
    balance: Balance,
    offers: Seq<ActiveOffer>,
    rate: u64,
)
    requires
        offers.len() >= 2,
    ensures
        cycle_start(config, balance, offers) == Step::Act(Action::Cancel),
        reconciliation_of(offers, rate) == Reconciliation::Cancel,
{
}

} // verus!
