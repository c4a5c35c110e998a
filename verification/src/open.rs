//! Opening or modifying a position: top up collateral, settle funding
//! (fail-closed), shift the exposure, update the entry price and the
//! market's open interest and mark price, then re-validate solvency.

use vstd::prelude::*;

use crate::math::abs_i;
use crate::math::abs_u64;
use crate::settlement::settle_position;
use crate::settlement::settled_collateral;
use crate::types::AccountId;
use crate::types::MarketState;
use crate::types::PerpError;
use crate::types::Position;
use crate::types::MIN_COLLATERAL_RATIO;
use crate::valuation::collateral_ratio;
use crate::valuation::position_value;
use crate::valuation::position_value_fits;
use crate::valuation::position_value_of;
use crate::valuation::ratio_of;

verus! {

/// Whether an open/modify call replaces the entry price: opening fresh,
/// or adding to an existing exposure in its own direction, takes the new
/// price outright (no weighted averaging with the prior entry price).
pub open spec fn takes_new_entry_price(old_base: int, base_delta: int) -> bool {
    old_base == 0 || (old_base > 0 && base_delta > 0) || (old_base < 0 && base_delta < 0)
}

/// The position and market after an open/modify call, or the error that
/// rejects it, in the order the checks are made: ownership, collateral
/// top-up, funding settlement (fail-closed), exposure shift, open
/// interest, and finally the collateral-ratio gate for any position left
/// with exposure.
pub open spec fn open_result(
    p: Position,
    m: MarketState,
    caller: AccountId,
    base_delta: i64,
    collateral_delta: u64,
    price: u64,
) -> Result<(Position, MarketState), PerpError> {
    if p.owner != caller {
        Err(PerpError::OwnershipMismatch)
    } else if p.collateral + collateral_delta > u64::MAX {
        Err(PerpError::ArithmeticOverflow)
    } else {
        let topped = Position { collateral: (p.collateral + collateral_delta) as u64, ..p };
        match settle_position(topped, m, false) {
            Err(e) => Err(e),
            Ok(settled) => {
                if !(i64::MIN <= p.base_amount + base_delta <= i64::MAX) {
                    Err(PerpError::ArithmeticOverflow)
                } else {
                    let new_base = (p.base_amount + base_delta) as i64;
                    let new_entry = if takes_new_entry_price(p.base_amount as int, base_delta as int) {
                        price
                    } else {
                        p.entry_price
                    };
                    if m.open_interest < abs_i(p.base_amount as int) {
                        Err(PerpError::ArithmeticUnderflow)
                    } else if m.open_interest - abs_i(p.base_amount as int) + abs_i(new_base as int)
                        > u64::MAX {
                        Err(PerpError::ArithmeticOverflow)
                    } else {
                        let p2 = Position { base_amount: new_base, entry_price: new_entry, ..settled };
                        let m2 = MarketState {
                            open_interest: (m.open_interest - abs_i(p.base_amount as int) + abs_i(
                                new_base as int,
                            )) as u64,
                            mark_price: price,
                            ..m
                        };
                        if new_base != 0 && !position_value_fits(
                            abs_i(new_base as int),
                            price as int,
                        ) {
                            Err(PerpError::ArithmeticOverflow)
                        } else if new_base != 0 && ratio_of(
                            p2.collateral as int,
                            position_value_of(abs_i(new_base as int), price as int),
                        ) < MIN_COLLATERAL_RATIO {
                            Err(PerpError::InsufficientCollateral)
                        } else {
                            Ok((p2, m2))
                        }
                    }
                }
            },
        }
    }
}

/// Open a fresh position or modify an existing one. `base_delta` shifts
/// the exposure, `collateral_delta` tops up the margin (the caller has
/// already moved those funds into custody), and `price` both prices the
/// trade and becomes the market's mark price. On any failure, neither
/// record is changed.
pub fn open_position(
    position: &mut Position,
    market: &mut MarketState,
    caller: AccountId,
    base_delta: i64,
    collateral_delta: u64,
    price: u64,
) -> (r: Result<(), PerpError>)
    ensures
        match open_result(*old(position), *old(market), caller, base_delta, collateral_delta, price) {
            Ok(pm) => r == Ok::<(), PerpError>(()) && *final(position) == pm.0 && *final(market)
                == pm.1,
            Err(e) => r == Err::<(), PerpError>(e) && *final(position) == *old(position)
                && *final(market) == *old(market),
        },
        r matches Ok(_) ==> final(market).open_interest == old(market).open_interest - abs_i(
            old(position).base_amount as int,
        ) + abs_i(final(position).base_amount as int),
        r matches Ok(_) ==> final(position).owner == old(position).owner,
{
    if position.owner != caller {
        return Err(PerpError::OwnershipMismatch);
    }
    let topped_wide: u128 = position.collateral as u128 + collateral_delta as u128;
    if topped_wide > u64::MAX as u128 {
        return Err(PerpError::ArithmeticOverflow);
    }
    let topped = Position { collateral: topped_wide as u64, ..*position };
    let settled: u64 = match settled_collateral(&topped, market, false) {
        Ok(c) => c,
        Err(e) => {
            return Err(e);
        },
    };
    let new_base_wide: i128 = position.base_amount as i128 + base_delta as i128;
    if new_base_wide > i64::MAX as i128 || new_base_wide < i64::MIN as i128 {
        return Err(PerpError::ArithmeticOverflow);
    }
    let new_base: i64 = new_base_wide as i64;
    let new_entry: u64 = if position.base_amount == 0 || (position.base_amount > 0 && base_delta
        > 0) || (position.base_amount < 0 && base_delta < 0) {
        price
    } else {
        position.entry_price
    };
    let old_mag: u64 = abs_u64(position.base_amount);
    let new_mag: u64 = abs_u64(new_base);
    if market.open_interest < old_mag {
        return Err(PerpError::ArithmeticUnderflow);
    }
    let oi_wide: u128 = (market.open_interest - old_mag) as u128 + new_mag as u128;
    if oi_wide > u64::MAX as u128 {
        return Err(PerpError::ArithmeticOverflow);
    }
    let new_oi: u64 = oi_wide as u64;
    if new_base != 0 {
        let value: u64 = match position_value(new_mag, price) {
            Ok(v) => v,
            Err(e) => {
                return Err(e);
            },
        };
        let ratio: u64 = collateral_ratio(settled, value);
        if ratio < MIN_COLLATERAL_RATIO {
            return Err(PerpError::InsufficientCollateral);
        }
    }
    position.collateral = settled;
    position.last_funding_index = market.funding_index;
    position.base_amount = new_base;
    position.entry_price = new_entry;
    market.open_interest = new_oi;
    market.mark_price = price;
    Ok(())
}

} // verus!
