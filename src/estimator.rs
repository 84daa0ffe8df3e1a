use vstd::prelude::*;
use vstd::relations::{sorted_by, total_ordering};
use vstd::seq_lib::lemma_sorted_unique;

use crate::error::StrategyError;

verus! {

broadcast use vstd::seq_lib::group_to_multiset_ensures;

/// The ascending order on candle highs.
pub open spec fn ascending_order() -> spec_fn(u64, u64) -> bool {
    |a: u64, b: u64| a <= b
}

/// The highs arranged in ascending order.
pub open spec fn ascending(highs: Seq<u64>) -> Seq<u64> {
    highs.sort_by(ascending_order())
}

/// The `n`-th highest of the highs: rank `len - n` of the ascending arrangement.
pub open spec fn nth_highest_of(highs: Seq<u64>, n: int) -> u64 {
    ascending(highs)[highs.len() - n]
}

/// Whether rank `n` may be requested from a window of `limit` candles.
pub open spec fn rank_valid(n: u64, limit: u64) -> bool {
    n <= limit
}

/// What estimating rank `n` from `highs`, out of `limit` requested candles, yields.
pub open spec fn estimate_of(highs: Seq<u64>, n: u64, limit: u64) -> Result<u64, StrategyError> {
    if !rank_valid(n, limit) {
        Err(StrategyError::InvalidParameter)
    } else if highs.len() <= n {
        Err(StrategyError::InsufficientData)
    } else if n == 0 {
        Err(StrategyError::InvalidParameter)
    } else {
        Ok(nth_highest_of(highs, n as int))
    }
}

proof fn lemma_ascending_is_total()
    ensures
        total_ordering(ascending_order()),
{
}

/// Rejects a rank larger than the window it is taken from.
/// This is decided before any candle is fetched.
pub fn check_rank(n: u64, limit: u64) -> (r: Result<(), StrategyError>)
    ensures
        r is Ok <==> rank_valid(n, limit),
        !rank_valid(n, limit) ==> r == Err::<(), StrategyError>(StrategyError::InvalidParameter),
{
    if n > limit {
        Err(StrategyError::InvalidParameter)
    } else {
        Ok(())
    }
}

/// Returns a copy of `highs` in ascending order.
pub fn sorted_ascending(highs: &Vec<u64>) -> (r: Vec<u64>)
    ensures
        r@ == ascending(highs@),
        r@.len() == highs@.len(),
{
    let mut out: Vec<u64> = Vec::new();
    let mut i: usize = 0;
    while i < highs.len()
        invariant
            i <= highs@.len(),
            sorted_by(out@, ascending_order()),
            out@.to_multiset() == highs@.subrange(0, i as int).to_multiset(),
        decreases highs@.len() - i,
    {
        let x = highs[i];
        let mut pos: usize = 0;
        while pos < out.len() && out[pos] <= x
            invariant
                pos <= out@.len(),
                forall|k: int| 0 <= k < pos ==> out@[k] <= x,
            decreases out@.len() - pos,
        {
            pos = pos + 1;
        }
        proof {
            assert forall|k: int| pos <= k < out@.len() implies x < out@[k] by {
                assert(ascending_order()(out@[pos as int], out@[k]));
            }
        }
        let ghost before = out@;
        out.insert(pos, x);
        proof {
            assert(highs@.subrange(0, i + 1) =~= highs@.subrange(0, i as int).push(x));
            assert forall|a: int, b: int| 0 <= a < b < out@.len() implies
                #[trigger] ascending_order()(out@[a], out@[b]) by {
                if b < pos {
                    assert(ascending_order()(before[a], before[b]));
                } else if b == pos {
                } else if a < pos {
                } else if a == pos {
                } else {
                    assert(ascending_order()(before[a - 1], before[b - 1]));
                }
            }
        }
        i = i + 1;
    }
    proof {
        assert(highs@.subrange(0, highs@.len() as int) =~= highs@);
        lemma_ascending_is_total();
        highs@.lemma_sort_by_ensures(ascending_order());
        lemma_sorted_unique(out@, ascending(highs@), ascending_order());
        assert(out@.to_multiset().len() == highs@.to_multiset().len());
    }
    out
}

/// The `n`-th highest high of a candle window of `limit` requested candles.
/// A rank above `limit` is rejected before the highs are looked at; a window
/// with no more than `n` candles is reported as insufficient; rank zero of a
/// longer window names no candle and is rejected.
pub fn nth_highest(highs: &Vec<u64>, n: u64, limit: u64) -> (r: Result<u64, StrategyError>)
    ensures
        !rank_valid(n, limit) ==> r == Err::<u64, StrategyError>(StrategyError::InvalidParameter),
        rank_valid(n, limit) && highs@.len() <= n ==> r == Err::<u64, StrategyError>(
            StrategyError::InsufficientData,
        ),
        rank_valid(n, limit) && highs@.len() > n && n == 0 ==> r == Err::<u64, StrategyError>(
            StrategyError::InvalidParameter,
        ),
        rank_valid(n, limit) && highs@.len() > n && n >= 1 ==> r == Ok::<u64, StrategyError>(
            nth_highest_of(highs@, n as int),
        ),
        r == estimate_of(highs@, n, limit),
{
    match check_rank(n, limit) {
        Err(e) => {
            return Err(e);
        },
        Ok(()) => {},
    }
    if highs.len() as u64 <= n {
        return Err(StrategyError::InsufficientData);
    }
    if n == 0 {
        return Err(StrategyError::InvalidParameter);
    }
    let sorted = sorted_ascending(highs);
    Ok(sorted[sorted.len() - n as usize])
}

/// A rank above the number of candles asked for fails with
/// `InvalidParameter`, whatever the highs hold.
pub proof fn lemma_rank_above_limit_invalid(highs: Seq<u64>, n: u64, limit: u64)
    requires
        n > limit,
    ensures
        estimate_of(highs, n, limit) == Err::<u64, StrategyError>(StrategyError::InvalidParameter),
{
}

/// With a valid rank and more candles than the rank, the estimate is the
/// high at rank `len - n` of the ascending arrangement, and it is one of the
/// highs.
pub proof fn lemma_estimate_is_ranked_high(highs: Seq<u64>, n: u64, limit: u64)
    requires
        rank_valid(n, limit),
        n >= 1,
        highs.len() > n,
    ensures
        estimate_of(highs, n, limit) == Ok::<u64, StrategyError>(
            ascending(highs)[highs.len() - n],
        ),
        highs.contains(ascending(highs)[highs.len() - n]),
{
    lemma_ascending_is_total();
    highs.lemma_sort_by_ensures(ascending_order());
    let s = ascending(highs);
    let i = highs.len() - n;
    assert(s.to_multiset().len() == highs.to_multiset().len());
    assert(s.contains(s[i]));
    assert(s.to_multiset().count(s[i]) > 0);
}

} // verus!
