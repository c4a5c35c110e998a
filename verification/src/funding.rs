//! Funding accrual: advancing the market's funding index by a per-tick
//! rate times the elapsed time, with a coarse two-regime rate that
//! doubles when open interest exceeds one whole unit.

use vstd::prelude::*;
use vstd::arithmetic::mul::lemma_mul_nonnegative;
use vstd::arithmetic::mul::lemma_mul_upper_bound;

use crate::types::MarketState;
use crate::types::PerpError;
use crate::types::SCALE;

verus! {

/// Base funding rate: 0.001% per tick, in `SCALE` units.
pub const BASE_FUNDING_RATE: i64 = 10_000;

/// Per-tick funding rate for a market with the given open interest: the
/// base rate, doubled once open interest exceeds one whole unit.
pub open spec fn funding_rate_of(open_interest: int) -> int {
    if open_interest > SCALE {
        2 * BASE_FUNDING_RATE
    } else {
        BASE_FUNDING_RATE as int
    }
}

/// The market after funding is advanced to `now_slot`: a clock reading
/// earlier than the last funding tick is rejected, an equal one is a
/// no-op, and otherwise `rate * elapsed` is accumulated onto the index,
/// failing (with nothing changed) if the increment or the new index
/// leaves the `i64` range.
pub open spec fn advance_funding_result(m: MarketState, now_slot: u64) -> Result<
    MarketState,
    PerpError,
> {
    if now_slot < m.last_funding_slot {
        Err(PerpError::InvalidTimeline)
    } else if now_slot == m.last_funding_slot {
        Ok(m)
    } else {
        let rate = funding_rate_of(m.open_interest as int);
        let increment = rate * (now_slot - m.last_funding_slot);
        if increment > i64::MAX {
            Err(PerpError::ArithmeticOverflow)
        } else if m.funding_index + increment > i64::MAX {
            Err(PerpError::ArithmeticOverflow)
        } else {
            Ok(
                MarketState {
                    funding_index: (m.funding_index + increment) as i64,
                    funding_rate_per_slot: rate as i64,
                    last_funding_slot: now_slot,
                    ..m
                },
            )
        }
    }
}

/// Advance the market's funding index to `now_slot`. On any failure the
/// market is left exactly as it was.
pub fn update_funding(market: &mut MarketState, now_slot: u64) -> (r: Result<(), PerpError>)
    ensures
        match advance_funding_result(*old(market), now_slot) {
            Ok(m2) => r == Ok::<(), PerpError>(()) && *final(market) == m2,
            Err(e) => r == Err::<(), PerpError>(e) && *final(market) == *old(market),
        },
        now_slot == old(market).last_funding_slot ==> *final(market) == *old(market),
{
    if now_slot < market.last_funding_slot {
        return Err(PerpError::InvalidTimeline);
    }
    let elapsed: u64 = now_slot - market.last_funding_slot;
    if elapsed == 0 {
        return Ok(());
    }
    let rate: i64 = if market.open_interest > SCALE {
        2 * BASE_FUNDING_RATE
    } else {
        BASE_FUNDING_RATE
    };
    proof {
        lemma_mul_upper_bound(rate as int, 2 * BASE_FUNDING_RATE, elapsed as int, u64::MAX as int);
        lemma_mul_nonnegative(rate as int, elapsed as int);
    }
    let increment_wide: i128 = (rate as i128) * (elapsed as i128);
    if increment_wide > i64::MAX as i128 {
        return Err(PerpError::ArithmeticOverflow);
    }
    let next_index_wide: i128 = market.funding_index as i128 + increment_wide;
    if next_index_wide > i64::MAX as i128 {
        return Err(PerpError::ArithmeticOverflow);
    }
    market.funding_index = next_index_wide as i64;
    market.funding_rate_per_slot = rate;
    market.last_funding_slot = now_slot;
    Ok(())
}

/// Advancing funding is idempotent in time: a second advance with no
/// elapsed ticks since a first successful one changes nothing.
pub proof fn lemma_advance_funding_idempotent(m: MarketState, now_slot: u64)
    requires
        advance_funding_result(m, now_slot) matches Ok(_),
    ensures
        ({
            let once = advance_funding_result(m, now_slot)->Ok_0;
            advance_funding_result(once, now_slot) == Ok::<MarketState, PerpError>(once)
        }),
{
}

} // verus!
