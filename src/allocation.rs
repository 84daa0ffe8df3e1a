use vstd::prelude::*;

verus! {

/// One whole unit of currency in base units: amounts carry eight decimals.
pub const UNIT: u64 = 100_000_000;

/// The largest amount, in base units, that a balance or an offer may hold
/// (ten billion whole units), so that every sum here stays exact.
pub const MAX_AMOUNT: u64 = 1_000_000_000_000_000_000;

/// The funding balance of one currency, in base units.
#[derive(Clone, Copy, Debug, PartialEq, Eq, Structural)]
pub struct Balance {
    /// What is free to be offered.
    pub available: u64,
    /// Everything the wallet holds.
    pub total: u64,
}

impl Balance {
    pub open spec fn in_range(self) -> bool {
        self.available <= MAX_AMOUNT && self.total <= MAX_AMOUNT
    }
}

/// Whether funds can be lent, and how much.
#[derive(Clone, Copy, Debug, PartialEq, Eq, Structural)]
pub enum Allocation {
    /// Less than the minimum offer plus one unit can be offered: wait.
    BelowMinimum { effective: u64 },
    /// `lend` may be offered; `low_utilization` holds when less than half of
    /// the wallet is available or already on offer.
    Lendable { effective: u64, lend: u64, low_utilization: bool },
}

/// Funds that count as available: free ones and those parked in an open offer.
pub open spec fn effective_of(available: u64, on_offer: u64) -> int {
    available + on_offer
}

/// The fixed one-unit safety buffer keeps offers clear of the minimum.
pub open spec fn is_below_minimum(effective: int, minimum: u64) -> bool {
    effective < minimum + UNIT
}

/// Ratio `effective / total` below one half.
pub open spec fn is_low_utilization(effective: int, total: u64) -> bool {
    2 * effective < total
}

/// A wallet under ten times the minimum lends the minimum plus one unit;
/// a larger one lends what is available, capped at a tenth of the total.
pub open spec fn lend_amount_of(effective: int, total: u64, minimum: u64) -> int {
    if total < minimum * 10 {
        minimum + UNIT
    } else if effective <= total as int / 10 {
        effective
    } else {
        total as int / 10
    }
}

pub open spec fn allocation_of(balance: Balance, on_offer: u64, minimum: u64) -> Allocation {
    let effective = effective_of(balance.available, on_offer);
    if is_below_minimum(effective, minimum) {
        Allocation::BelowMinimum { effective: effective as u64 }
    } else {
        Allocation::Lendable {
            effective: effective as u64,
            lend: lend_amount_of(effective, balance.total, minimum) as u64,
            low_utilization: is_low_utilization(effective, balance.total),
        }
    }
}

/// The amount actually submitted: one unit under the lend amount, to absorb
/// rounding on the exchange's side.
pub open spec fn submitted_amount_of(lend: u64) -> int {
    lend - UNIT
}

/// Decides whether `balance`, with `on_offer` already offered, can fund an
/// offer of at least `minimum`, and how much to lend.
pub fn allocate(balance: Balance, on_offer: u64, minimum: u64) -> (r: Allocation)
    requires
        balance.in_range(),
        on_offer <= MAX_AMOUNT,
        minimum <= MAX_AMOUNT,
    ensures
        r == allocation_of(balance, on_offer, minimum),
{
    let effective = balance.available + on_offer;
    if effective < minimum + UNIT {
        return Allocation::BelowMinimum { effective };
    }
    let lend = if balance.total < minimum * 10 {
        minimum + UNIT
    } else if effective <= balance.total / 10 {
        effective
    } else {
        balance.total / 10
    };
    Allocation::Lendable { effective, lend, low_utilization: 2 * effective < balance.total }
}

/// The amount to submit for a lend amount.
pub fn submitted_amount(lend: u64) -> (r: i64)
    requires
        lend <= 3 * MAX_AMOUNT,
    ensures
        r == submitted_amount_of(lend),
{
    lend as i64 - UNIT as i64
}

} // verus!
