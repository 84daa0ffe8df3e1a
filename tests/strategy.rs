use funding_bot::allocation::{Balance, UNIT};
use funding_bot::error::StrategyError;
use funding_bot::reconcile::ActiveOffer;
use funding_bot::strategy::{
    after_candles, start_cycle, Action, CandleParams, Config, OfferRequest, Pending, Step, Tier,
};

fn units(n: u64) -> u64 {
    n * UNIT
}

fn config(limit: u64) -> Config {
    Config { minimum: units(150), threshold_rate: 500_000_000, candle_limit: limit }
}

fn offer(amount: u64, rate: u64) -> ActiveOffer {
    ActiveOffer { amount, rate }
}

fn window(top: u64) -> Vec<u64> {
    // twenty highs: top, top - 1_000_000, ...
    let mut highs = Vec::new();
    for i in 0..20u64 {
        highs.push(top - i * 1_000_000);
    }
    highs.reverse();
    highs
}

#[test]
fn cycle_with_several_offers_cancels() {
    let offers = vec![offer(units(10), 1), offer(units(10), 2)];
    let balance = Balance { available: units(5000), total: units(10000) };
    assert_eq!(start_cycle(&config(97), balance, &offers), Step::Act(Action::Cancel));
    let poor = Balance { available: 0, total: 0 };
    assert_eq!(start_cycle(&config(97), poor, &offers), Step::Act(Action::Cancel));
}

#[test]
fn cycle_below_minimum_waits() {
    let balance = Balance { available: units(100), total: units(10000) };
    assert_eq!(
        start_cycle(&config(97), balance, &Vec::new()),
        Step::Act(Action::Wait { effective: units(100) })
    );
    let offers = vec![offer(units(50), 500_000_000)];
    assert_eq!(
        start_cycle(&config(97), balance, &offers),
        Step::Act(Action::Wait { effective: units(150) })
    );
}

#[test]
fn cycle_low_utilization_asks_long_tier() {
    let balance = Balance { available: units(1000), total: units(10000) };
    let step = start_cycle(&config(97), balance, &Vec::new());
    assert_eq!(
        step,
        Step::Fetch(Pending { tier: Tier::Long, lend: units(1000), existing: None })
    );
}

#[test]
fn cycle_high_utilization_asks_short_tier() {
    let balance = Balance { available: units(6000), total: units(10000) };
    let existing = offer(units(500), 400_000_000);
    let step = start_cycle(&config(97), balance, &vec![existing]);
    assert_eq!(
        step,
        Step::Fetch(Pending { tier: Tier::Short, lend: units(1000), existing: Some(existing) })
    );
}

#[test]
fn cycle_rank_over_limit_fails_before_fetch() {
    let balance = Balance { available: units(1000), total: units(10000) };
    assert_eq!(
        start_cycle(&config(2), balance, &Vec::new()),
        Step::Fail(StrategyError::InvalidParameter)
    );
    let busy = Balance { available: units(6000), total: units(10000) };
    assert_eq!(
        start_cycle(&config(5), busy, &Vec::new()),
        Step::Fail(StrategyError::InvalidParameter)
    );
}

#[test]
fn long_tier_above_threshold_submits_long_offer() {
    let pending = Pending { tier: Tier::Long, lend: units(1000), existing: None };
    // third highest of the window is 600_000_000
    let step = after_candles(&config(97), &pending, &window(602_000_000));
    assert_eq!(
        step,
        Step::Act(Action::Submit(OfferRequest {
            amount: units(999) as i64,
            rate: 594_000_000,
            period: 120,
        }))
    );
}

#[test]
fn long_tier_under_threshold_falls_back_to_short() {
    let pending = Pending { tier: Tier::Long, lend: units(1000), existing: None };
    let step = after_candles(&config(97), &pending, &window(402_000_000));
    assert_eq!(
        step,
        Step::Fetch(Pending { tier: Tier::Short, lend: units(1000), existing: None })
    );
    assert_eq!(
        after_candles(&config(7), &pending, &window(402_000_000)),
        Step::Fail(StrategyError::InvalidParameter)
    );
}

#[test]
fn short_tier_submits_short_offer_whatever_the_threshold() {
    let pending = Pending { tier: Tier::Short, lend: units(1000), existing: None };
    // tenth highest of the window is 300_000_000
    let step = after_candles(&config(97), &pending, &window(309_000_000));
    assert_eq!(
        step,
        Step::Act(Action::Submit(OfferRequest {
            amount: units(999) as i64,
            rate: 297_000_000,
            period: 2,
        }))
    );
}

#[test]
fn open_offer_in_band_is_held_and_out_of_band_cancelled() {
    let near = Pending { tier: Tier::Short, lend: units(1000), existing: Some(offer(units(999), 297_000_000)) };
    assert_eq!(after_candles(&config(97), &near, &window(309_000_000)), Step::Act(Action::Hold));
    let far = Pending { tier: Tier::Short, lend: units(1000), existing: Some(offer(units(999), 200_000_000)) };
    assert_eq!(after_candles(&config(97), &far, &window(309_000_000)), Step::Act(Action::Cancel));
}

#[test]
fn too_few_candles_fail_the_cycle() {
    let pending = Pending { tier: Tier::Short, lend: units(1000), existing: None };
    let highs: Vec<u64> = vec![1, 2, 3, 4, 5, 6, 7, 8, 9, 10];
    assert_eq!(
        after_candles(&config(97), &pending, &highs),
        Step::Fail(StrategyError::InsufficientData)
    );
}

#[test]
fn candle_params_follow_tier_and_config() {
    let d = CandleParams::default();
    assert_eq!(d.tf, "15m");
    assert_eq!((d.n, d.limit, d.period), (10, 97, 2));
    let pending = Pending { tier: Tier::Long, lend: units(1000), existing: None };
    let p = pending.candle_params(&config(50));
    assert_eq!(p.tf, "15m");
    assert_eq!((p.n, p.limit, p.period), (3, 50, 2));
}
