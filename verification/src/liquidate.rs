//! Liquidation: any caller may force-close a position once its
//! effective collateral (collateral plus unrealized PnL) falls under the
//! minimum ratio of its notional value. The liquidator is paid a penalty
//! cut of the position's raw collateral.

use vstd::prelude::*;
use vstd::arithmetic::div_mod::lemma_div_is_ordered;
use vstd::arithmetic::div_mod::lemma_div_multiples_vanish;
use vstd::arithmetic::mul::lemma_mul_inequality;

use crate::math::abs_i;
use crate::math::abs_u64;
use crate::math::mul_div_scale;
use crate::settlement::settle_position;
use crate::settlement::settled_collateral;
use crate::types::MarketState;
use crate::types::PerpError;
use crate::types::Position;
use crate::types::LIQUIDATION_PENALTY;
use crate::types::MIN_COLLATERAL_RATIO;
use crate::types::SCALE;
use crate::valuation::calculate_unrealized_pnl;
use crate::valuation::collateral_ratio;
use crate::valuation::pnl_fits;
use crate::valuation::pnl_of;
use crate::valuation::position_value;
use crate::valuation::position_value_fits;
use crate::valuation::position_value_of;
use crate::valuation::ratio_of;

verus! {

/// Penalty taken from a liquidated position's collateral (after funding
/// settlement, before PnL): a `LIQUIDATION_PENALTY / SCALE` share,
/// truncating. Never more than the collateral itself.
pub open spec fn penalty_of(collateral: int) -> int {
    collateral * LIQUIDATION_PENALTY / (SCALE as int)
}

/// The position, market, and liquidator payout after a liquidation, or
/// the error that rejects it. A flat position has nothing to liquidate;
/// a position whose effective collateral ratio still meets the minimum
/// is not liquidatable; on any error nothing changes.
pub open spec fn liquidate_result(p: Position, m: MarketState) -> Result<
    (Position, MarketState, u64),
    PerpError,
> {
    if p.base_amount == 0 {
        Err(PerpError::NoExposure)
    } else {
        match settle_position(p, m, true) {
            Err(e) => Err(e),
            Ok(settled) => {
                if !position_value_fits(abs_i(p.base_amount as int), m.mark_price as int) {
                    Err(PerpError::ArithmeticOverflow)
                } else if !pnl_fits(p, m.mark_price as int) {
                    Err(PerpError::ArithmeticOverflow)
                } else {
                    let value = position_value_of(abs_i(p.base_amount as int), m.mark_price as int);
                    let pnl = pnl_of(p, m.mark_price as int);
                    if pnl >= 0 && settled.collateral + pnl > u64::MAX {
                        Err(PerpError::ArithmeticOverflow)
                    } else {
                        let effective = if settled.collateral + pnl < 0 {
                            0
                        } else {
                            settled.collateral + pnl
                        };
                        if ratio_of(effective, value) >= MIN_COLLATERAL_RATIO {
                            Err(PerpError::NotLiquidatable)
                        } else if m.open_interest < abs_i(p.base_amount as int) {
                            Err(PerpError::ArithmeticUnderflow)
                        } else {
                            let penalty = penalty_of(settled.collateral as int);
                            let p2 = Position {
                                base_amount: 0,
                                collateral: (settled.collateral - penalty) as u64,
                                entry_price: 0,
                                ..settled
                            };
                            let m2 = MarketState {
                                open_interest: (m.open_interest - abs_i(
                                    p.base_amount as int,
                                )) as u64,
                                ..m
                            };
                            Ok((p2, m2, penalty as u64))
                        }
                    }
                }
            },
        }
    }
}

/// Forcibly close an under-margined position. Returns the penalty owed
/// to the liquidating caller (already held in custody; the host pays it
/// out). On any failure, neither record is changed.
pub fn liquidate(position: &mut Position, market: &mut MarketState) -> (r: Result<u64, PerpError>)
    ensures
        match liquidate_result(*old(position), *old(market)) {
            Ok(t) => r == Ok::<u64, PerpError>(t.2) && *final(position) == t.0 && *final(market)
                == t.1,
            Err(e) => r == Err::<u64, PerpError>(e) && *final(position) == *old(position)
                && *final(market) == *old(market),
        },
        r matches Ok(_) ==> final(position).base_amount == 0 && final(market).open_interest == old(
            market,
        ).open_interest - abs_i(old(position).base_amount as int),
{
    if position.base_amount == 0 {
        return Err(PerpError::NoExposure);
    }
    let settled: u64 = match settled_collateral(position, market, true) {
        Ok(c) => c,
        Err(e) => {
            return Err(e);
        },
    };
    let size: u64 = abs_u64(position.base_amount);
    let value: u64 = match position_value(size, market.mark_price) {
        Ok(v) => v,
        Err(e) => {
            return Err(e);
        },
    };
    let pnl: i64 = match calculate_unrealized_pnl(position, market.mark_price) {
        Ok(v) => v,
        Err(e) => {
            return Err(e);
        },
    };
    let effective: u64 = if pnl >= 0 {
        let wide: u128 = settled as u128 + pnl as u128;
        if wide > u64::MAX as u128 {
            return Err(PerpError::ArithmeticOverflow);
        }
        wide as u64
    } else {
        let loss: u64 = abs_u64(pnl);
        if loss > settled {
            0
        } else {
            settled - loss
        }
    };
    let ratio: u64 = collateral_ratio(effective, value);
    if ratio >= MIN_COLLATERAL_RATIO {
        return Err(PerpError::NotLiquidatable);
    }
    if market.open_interest < size {
        return Err(PerpError::ArithmeticUnderflow);
    }
    let penalty_wide: u128 = mul_div_scale(settled, LIQUIDATION_PENALTY);
    proof {
        lemma_mul_inequality(LIQUIDATION_PENALTY as int, SCALE as int, settled as int);
        lemma_div_is_ordered(
            settled as int * LIQUIDATION_PENALTY as int,
            settled as int * SCALE as int,
            SCALE as int,
        );
        lemma_div_multiples_vanish(settled as int, SCALE as int);
        assert(penalty_wide <= settled);
    }
    let penalty: u64 = penalty_wide as u64;
    position.collateral = settled - penalty;
    position.last_funding_index = market.funding_index;
    position.base_amount = 0;
    position.entry_price = 0;
    market.open_interest = market.open_interest - size;
    Ok(penalty)
}

} // verus!
