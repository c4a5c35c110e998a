//! Stateless valuation: position notional value, collateral ratio
//! (health), and unrealized profit-and-loss, all on fixed-point
//! integers at `SCALE` precision.

use vstd::prelude::*;
use vstd::arithmetic::mul::lemma_mul_upper_bound;
use vstd::math::min;

use crate::math::abs_i;
use crate::math::abs_u64;
use crate::math::div_trunc;
use crate::math::lemma_mul_abs_sign;
use crate::math::mul_div_scale;
use crate::types::PerpError;
use crate::types::Position;
use crate::types::SCALE;

verus! {

/// Notional value of `size` units (a magnitude) at `price`:
/// `size * price / SCALE`, truncating.
pub open spec fn position_value_of(size: int, price: int) -> int {
    size * price / (SCALE as int)
}

/// Whether the notional value can be carried in a `u64`.
pub open spec fn position_value_fits(size: int, price: int) -> bool {
    position_value_of(size, price) <= u64::MAX
}

/// Collateral ratio of `collateral` against notional `value`:
/// `collateral * SCALE / value`, saturated at `u64::MAX`, and the
/// maximum representable value when `value` is zero.
pub open spec fn ratio_of(collateral: int, value: int) -> int {
    if value == 0 {
        u64::MAX as int
    } else {
        min(collateral * (SCALE as int) / value, u64::MAX as int)
    }
}

/// Health of a position at `mark_price`: the collateral ratio of its
/// collateral against its notional value, and perfect (`u64::MAX`) for a
/// flat position.
pub open spec fn health_of(p: Position, mark_price: int) -> int {
    if p.base_amount == 0 {
        u64::MAX as int
    } else {
        ratio_of(
            p.collateral as int,
            position_value_of(abs_i(p.base_amount as int), mark_price),
        )
    }
}

/// Unrealized profit-and-loss of a position at `mark_price`:
/// `(mark_price - entry_price) * base_amount / SCALE`, truncating toward
/// zero. For a short (negative `base_amount`) this is positive exactly
/// when the price has fallen below the entry.
pub open spec fn pnl_of(p: Position, mark_price: int) -> int {
    if p.base_amount == 0 {
        0
    } else {
        div_trunc((mark_price - p.entry_price) * p.base_amount, SCALE as int)
    }
}

/// Whether the unrealized PnL can be carried in an `i64`.
pub open spec fn pnl_fits(p: Position, mark_price: int) -> bool {
    i64::MIN <= pnl_of(p, mark_price) <= i64::MAX
}

/// Notional value of `size` units (a magnitude) at `price`, checked:
/// a value beyond `u64::MAX` is an overflow.
pub fn position_value(size: u64, price: u64) -> (r: Result<u64, PerpError>)
    ensures
        match r {
            Ok(v) => position_value_fits(size as int, price as int) && v
                == position_value_of(size as int, price as int),
            Err(e) => e == PerpError::ArithmeticOverflow && !position_value_fits(
                size as int,
                price as int,
            ),
        },
{
    let wide: u128 = mul_div_scale(size, price);
    if wide > u64::MAX as u128 {
        Err(PerpError::ArithmeticOverflow)
    } else {
        Ok(wide as u64)
    }
}

/// Collateral ratio of `collateral` against notional `value`; total,
/// saturating at `u64::MAX`.
pub fn collateral_ratio(collateral: u64, value: u64) -> (r: u64)
    ensures
        r == ratio_of(collateral as int, value as int),
{
    if value == 0 {
        u64::MAX
    } else {
        proof {
            lemma_mul_upper_bound(
                collateral as int,
                u64::MAX as int,
                SCALE as int,
                SCALE as int,
            );
        }
        let wide: u128 = (collateral as u128) * (SCALE as u128) / (value as u128);
        if wide > u64::MAX as u128 {
            u64::MAX
        } else {
            wide as u64
        }
    }
}

/// Health (collateral ratio) of a position at `mark_price`. A flat
/// position is perfectly healthy for any price; otherwise the notional
/// value must fit in a `u64`, else the call fails with overflow.
pub fn calculate_position_health(position: &Position, mark_price: u64) -> (r: Result<
    u64,
    PerpError,
>)
    ensures
        position.base_amount == 0 ==> r == Ok::<u64, PerpError>(u64::MAX),
        match r {
            Ok(h) => h == health_of(*position, mark_price as int) && position_value_fits(
                abs_i(position.base_amount as int),
                mark_price as int,
            ),
            Err(e) => e == PerpError::ArithmeticOverflow && position.base_amount != 0
                && !position_value_fits(abs_i(position.base_amount as int), mark_price as int),
        },
{
    if position.base_amount == 0 {
        return Ok(u64::MAX);
    }
    let size: u64 = abs_u64(position.base_amount);
    let value: u64 = match position_value(size, mark_price) {
        Ok(v) => v,
        Err(e) => {
            return Err(e);
        },
    };
    Ok(collateral_ratio(position.collateral, value))
}

/// Unrealized PnL of a position at `mark_price`, checked: a result
/// outside the `i64` range is an overflow. A flat position has PnL zero.
pub fn calculate_unrealized_pnl(position: &Position, mark_price: u64) -> (r: Result<
    i64,
    PerpError,
>)
    ensures
        match r {
            Ok(v) => pnl_fits(*position, mark_price as int) && v == pnl_of(
                *position,
                mark_price as int,
            ),
            Err(e) => e == PerpError::ArithmeticOverflow && !pnl_fits(
                *position,
                mark_price as int,
            ),
        },
{
    if position.base_amount == 0 {
        return Ok(0);
    }
    let size: u64 = abs_u64(position.base_amount);
    let gain: bool;
    let diff: u64;
    if mark_price >= position.entry_price {
        // A rising price profits a long and costs a short.
        gain = position.base_amount > 0;
        diff = mark_price - position.entry_price;
    } else {
        gain = position.base_amount < 0;
        diff = position.entry_price - mark_price;
    }
    let magnitude: u128 = mul_div_scale(diff, size);
    proof {
        let num = (mark_price - position.entry_price) * position.base_amount;
        lemma_mul_abs_sign(mark_price - position.entry_price, position.base_amount as int);
        assert(magnitude == abs_i(num) / (SCALE as int));
        if num >= 0 {
            assert(pnl_of(*position, mark_price as int) == magnitude);
        } else {
            assert(pnl_of(*position, mark_price as int) == -(magnitude as int));
        }
    }
    if gain || magnitude == 0 {
        if magnitude > i64::MAX as u128 {
            Err(PerpError::ArithmeticOverflow)
        } else {
            Ok(magnitude as i64)
        }
    } else {
        if magnitude > i64::MAX as u128 + 1 {
            Err(PerpError::ArithmeticOverflow)
        } else {
            let wide: i128 = -(magnitude as i128);
            assert(i64::MIN <= wide <= i64::MAX);
            Ok(wide as i64)
        }
    }
}

} // verus!
