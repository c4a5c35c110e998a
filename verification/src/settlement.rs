//! Funding settlement: applying a position's outstanding funding
//! obligation against its collateral. Every operation that touches a
//! position settles it first.
//!
//! There are two variants, and the asymmetry is deliberate: on the
//! open/modify path a funding debit that exceeds the collateral is a hard
//! failure (fail-closed), while on the liquidation and close paths the
//! same debit saturates the collateral to zero (fail-open), so that an
//! exit can always proceed.

use vstd::prelude::*;
use vstd::arithmetic::mul::lemma_mul_upper_bound;

use crate::math::abs_u64;
use crate::math::abs_i;
use crate::math::div_trunc;
use crate::math::lemma_mul_abs_sign;
use crate::math::mul_div_scale;
use crate::types::MarketState;
use crate::types::PerpError;
use crate::types::Position;
use crate::types::SCALE;

verus! {

/// Funding accrued against this position since its last settlement.
pub open spec fn funding_delta_of(p: Position, m: MarketState) -> int {
    m.funding_index - p.last_funding_index
}

/// Whether that accrual can be carried in an `i64`.
pub open spec fn funding_delta_fits(p: Position, m: MarketState) -> bool {
    i64::MIN <= funding_delta_of(p, m) <= i64::MAX
}

/// The position's funding payment: `base_amount * delta / SCALE`,
/// truncating toward zero. Positive means the holder owes funding;
/// negative means the holder is owed.
pub open spec fn funding_payment_of(p: Position, m: MarketState) -> int {
    div_trunc(p.base_amount * funding_delta_of(p, m), SCALE as int)
}

/// Collateral after a payment is applied. A debit beyond the collateral
/// fails the strict variant and saturates to zero in the saturating one;
/// a credit that would not fit in a `u64` fails either variant.
pub open spec fn settle_collateral(collateral: u64, payment: int, saturating: bool) -> Result<
    u64,
    PerpError,
> {
    if payment > 0 {
        if payment > collateral {
            if saturating {
                Ok(0u64)
            } else {
                Err(PerpError::ArithmeticUnderflow)
            }
        } else {
            Ok((collateral - payment) as u64)
        }
    } else {
        if collateral - payment > u64::MAX {
            Err(PerpError::ArithmeticOverflow)
        } else {
            Ok((collateral - payment) as u64)
        }
    }
}

/// The whole settlement step: the position with its funding payment
/// applied and its funding snapshot advanced to the market's index.
pub open spec fn settle_position(p: Position, m: MarketState, saturating: bool) -> Result<
    Position,
    PerpError,
> {
    if !funding_delta_fits(p, m) {
        Err(PerpError::ArithmeticOverflow)
    } else {
        match settle_collateral(p.collateral, funding_payment_of(p, m), saturating) {
            Ok(c) => Ok(
                Position {
                    collateral: c,
                    last_funding_index: m.funding_index,
                    ..p
                },
            ),
            Err(e) => Err(e),
        }
    }
}

/// Collateral of `p` after settling its funding against `m`; the callers
/// advance `last_funding_index` themselves when they commit. Nothing is
/// written here: an operation that fails later must leave no trace of
/// the settlement either.
pub fn settled_collateral(p: &Position, m: &MarketState, saturating: bool) -> (r: Result<
    u64,
    PerpError,
>)
    ensures
        match settle_position(*p, *m, saturating) {
            Ok(q) => r == Ok::<u64, PerpError>(q.collateral),
            Err(e) => r == Err::<u64, PerpError>(e),
        },
{
    let delta_wide: i128 = m.funding_index as i128 - p.last_funding_index as i128;
    if delta_wide > i64::MAX as i128 || delta_wide < i64::MIN as i128 {
        return Err(PerpError::ArithmeticOverflow);
    }
    let delta: i64 = delta_wide as i64;
    let base_mag: u64 = abs_u64(p.base_amount);
    let delta_mag: u64 = abs_u64(delta);
    let pay_mag: u128 = mul_div_scale(base_mag, delta_mag);
    let owes: bool = (p.base_amount > 0 && delta > 0) || (p.base_amount < 0 && delta < 0);
    proof {
        let d = funding_delta_of(*p, *m);
        let num = p.base_amount * d;
        lemma_mul_abs_sign(p.base_amount as int, d);
        assert(delta == d);
        assert(abs_i(num) == base_mag as int * delta_mag as int);
        assert(pay_mag == abs_i(num) / (SCALE as int));
        assert(owes ==> num >= 0);
        assert(!owes ==> num <= 0);
        if num >= 0 {
            assert(funding_payment_of(*p, *m) == pay_mag);
        } else {
            assert(-num == abs_i(num));
            assert(funding_payment_of(*p, *m) == -(pay_mag as int));
        }
    }
    if owes && pay_mag > 0 {
        // The holder owes funding: debit the collateral.
        if pay_mag > p.collateral as u128 {
            if saturating {
                Ok(0)
            } else {
                Err(PerpError::ArithmeticUnderflow)
            }
        } else {
            Ok(p.collateral - (pay_mag as u64))
        }
    } else {
        // The holder is owed funding (or none accrued): credit it.
        proof {
            lemma_mul_upper_bound(
                base_mag as int,
                u64::MAX as int,
                delta_mag as int,
                u64::MAX as int,
            );
        }
        let credited: u128 = p.collateral as u128 + pay_mag;
        if credited > u64::MAX as u128 {
            Err(PerpError::ArithmeticOverflow)
        } else {
            Ok(credited as u64)
        }
    }
}

} // verus!
