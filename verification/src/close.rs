//! Voluntary close: the owner settles funding (fail-open), gives up the
//! whole exposure, and takes the remaining collateral back. A fully
//! closed position stays on record with zeroed fields.

use vstd::prelude::*;

use crate::math::abs_i;
use crate::math::abs_u64;
use crate::settlement::settle_position;
use crate::settlement::settled_collateral;
use crate::types::AccountId;
use crate::types::MarketState;
use crate::types::PerpError;
use crate::types::Position;

verus! {

/// The position, market, and owner payout after a voluntary close, or
/// the error that rejects it. Closing an already-closed position is a
/// no-op that succeeds; on any error nothing changes.
pub open spec fn close_result(p: Position, m: MarketState, caller: AccountId) -> Result<
    (Position, MarketState, u64),
    PerpError,
> {
    if p.owner != caller {
        Err(PerpError::OwnershipMismatch)
    } else if p.base_amount == 0 && p.collateral == 0 {
        Ok((p, m, 0u64))
    } else {
        match settle_position(p, m, true) {
            Err(e) => Err(e),
            Ok(settled) => {
                if p.base_amount != 0 && m.open_interest < abs_i(p.base_amount as int) {
                    Err(PerpError::ArithmeticUnderflow)
                } else {
                    let p2 = Position {
                        base_amount: 0,
                        collateral: 0,
                        entry_price: 0,
                        ..settled
                    };
                    let m2 = MarketState {
                        open_interest: (m.open_interest - abs_i(p.base_amount as int)) as u64,
                        ..m
                    };
                    Ok((p2, m2, settled.collateral))
                }
            },
        }
    }
}

/// Close the caller's position in full. Returns the collateral owed
/// back to the owner (already held in custody; the host pays it out).
/// On any failure, neither record is changed.
pub fn close_position(position: &mut Position, market: &mut MarketState, caller: AccountId) -> (r:
    Result<u64, PerpError>)
    ensures
        match close_result(*old(position), *old(market), caller) {
            Ok(t) => r == Ok::<u64, PerpError>(t.2) && *final(position) == t.0 && *final(market)
                == t.1,
            Err(e) => r == Err::<u64, PerpError>(e) && *final(position) == *old(position)
                && *final(market) == *old(market),
        },
        r matches Ok(_) ==> final(position).base_amount == 0 && final(position).collateral == 0
            && final(market).open_interest == old(market).open_interest - abs_i(
            old(position).base_amount as int,
        ),
{
    if position.owner != caller {
        return Err(PerpError::OwnershipMismatch);
    }
    if position.base_amount == 0 && position.collateral == 0 {
        return Ok(0);
    }
    let settled: u64 = match settled_collateral(position, market, true) {
        Ok(c) => c,
        Err(e) => {
            return Err(e);
        },
    };
    let size: u64 = abs_u64(position.base_amount);
    if position.base_amount != 0 && market.open_interest < size {
        return Err(PerpError::ArithmeticUnderflow);
    }
    position.base_amount = 0;
    position.collateral = 0;
    position.entry_price = 0;
    position.last_funding_index = market.funding_index;
    market.open_interest = market.open_interest - size;
    Ok(settled)
}

} // verus!
