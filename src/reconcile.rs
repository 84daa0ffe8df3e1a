use vstd::prelude::*;

verus! {

/// An open funding offer; `rate` uses the same fixed-point scale as the
/// candle highs.
#[derive(Clone, Copy, Debug, PartialEq, Eq, Structural)]
pub struct ActiveOffer {
    pub amount: u64,
    pub rate: u64,
}

/// What to do with the open offers, given the rate a new offer would ask.
#[derive(Clone, Copy, Debug, PartialEq, Eq, Structural)]
pub enum Reconciliation {
    /// Cancel every open offer.
    Cancel,
    /// Leave the open offer as it is.
    Hold,
    /// No offer is open: submit a new one.
    Submit,
}

/// The rate to ask: one percent under the estimate, rounded down.
pub open spec fn offered_rate_of(estimate: u64) -> int {
    estimate * 99 / 100
}

/// Whether `existing` lies outside `[rate * 0.99, rate * 1.01]`.
pub open spec fn outside_band(rate: u64, existing: u64) -> bool {
    rate * 101 < existing * 100 || rate * 99 > existing * 100
}

pub open spec fn reconcile_one(existing: Option<ActiveOffer>, rate: u64) -> Reconciliation {
    match existing {
        None => Reconciliation::Submit,
        Some(offer) => if outside_band(rate, offer.rate) {
            Reconciliation::Cancel
        } else {
            Reconciliation::Hold
        },
    }
}

/// The single open offer, if exactly one is open.
pub open spec fn sole_offer(offers: Seq<ActiveOffer>) -> Option<ActiveOffer> {
    if offers.len() == 1 {
        Some(offers[0])
    } else {
        None
    }
}

/// Several open offers mean outside interference: cancel them all.
pub open spec fn reconciliation_of(offers: Seq<ActiveOffer>, rate: u64) -> Reconciliation {
    if offers.len() > 1 {
        Reconciliation::Cancel
    } else {
        reconcile_one(sole_offer(offers), rate)
    }
}

/// The rate a new offer asks for a candle estimate.
pub fn offered_rate(estimate: u64) -> (r: u64)
    ensures
        r == offered_rate_of(estimate),
{
    ((estimate as u128) * 99 / 100) as u64
}

/// Whether an open offer at `existing` is far enough from `rate` to be replaced.
pub fn is_outside_band(rate: u64, existing: u64) -> (r: bool)
    ensures
        r == outside_band(rate, existing),
{
    (rate as u128) * 101 < (existing as u128) * 100 || (rate as u128) * 99 > (existing as u128)
        * 100
}

/// The single open offer, if exactly one is open.
pub fn sole(offers: &Vec<ActiveOffer>) -> (r: Option<ActiveOffer>)
    ensures
        r == sole_offer(offers@),
{
    if offers.len() == 1 {
        Some(offers[0])
    } else {
        None
    }
}

/// Decides, for at most one open offer, between holding it, cancelling it,
/// and submitting anew, for a new offer that would ask `rate`.
pub fn reconcile_existing(existing: Option<ActiveOffer>, rate: u64) -> (r: Reconciliation)
    ensures
        r == reconcile_one(existing, rate),
{
    match existing {
        None => Reconciliation::Submit,
        Some(offer) => if is_outside_band(rate, offer.rate) {
            Reconciliation::Cancel
        } else {
            Reconciliation::Hold
        },
    }
}

/// Decides between holding the open offer, cancelling, and submitting anew,
/// for a new offer that would ask `rate`.
pub fn reconcile(offers: &Vec<ActiveOffer>, rate: u64) -> (r: Reconciliation)
    ensures
        r == reconciliation_of(offers@, rate),
{
    if offers.len() > 1 {
        return Reconciliation::Cancel;
    }
    reconcile_existing(sole(offers), rate)
}

} // verus!
