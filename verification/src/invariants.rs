//! The engine's global laws: the open-interest accounting invariant,
//! non-negativity of collateral, and the liquidation boundary.

use vstd::prelude::*;

use crate::liquidate::liquidate_result;
use crate::math::abs_i;
use crate::types::MarketState;
use crate::types::PerpError;
use crate::types::Position;
use crate::types::MIN_COLLATERAL_RATIO;
use crate::valuation::health_of;
use crate::valuation::position_value_fits;

verus! {

/// Total absolute exposure of a set of positions: the sum of
/// `|base_amount|` over all of them.
pub open spec fn total_abs_exposure(ps: Seq<Position>) -> int
    decreases ps.len(),
{
    if ps.len() == 0 {
        0
    } else {
        total_abs_exposure(ps.drop_last()) + abs_i(ps.last().base_amount as int)
    }
}

/// Replacing one position changes the total absolute exposure by
/// exactly the change in that position's own absolute exposure.
pub proof fn lemma_total_abs_exposure_update(ps: Seq<Position>, i: int, p: Position)
    requires
        0 <= i < ps.len(),
    ensures
        total_abs_exposure(ps.update(i, p)) == total_abs_exposure(ps) - abs_i(
            ps[i].base_amount as int,
        ) + abs_i(p.base_amount as int),
    decreases ps.len(),
{
    let q = ps.update(i, p);
    if i == ps.len() - 1 {
        assert(q.drop_last() =~= ps.drop_last());
        assert(q.last() == p);
    } else {
        lemma_total_abs_exposure_update(ps.drop_last(), i, p);
        assert(q.drop_last() =~= ps.drop_last().update(i, p));
        assert(q.last() == ps.last());
    }
}

/// Open-interest invariant: in every reachable state, the market's open
/// interest equals the total absolute exposure of all positions. Each
/// operation touches a single position, and its contract moves open
/// interest by exactly the change in that position's absolute exposure;
/// so whenever the invariant holds before such a step, it holds after.
pub proof fn lemma_open_interest_invariant(
    ps: Seq<Position>,
    i: int,
    p_new: Position,
    oi_old: int,
    oi_new: int,
)
    requires
        0 <= i < ps.len(),
        oi_old == total_abs_exposure(ps),
        oi_new == oi_old - abs_i(ps[i].base_amount as int) + abs_i(p_new.base_amount as int),
    ensures
        oi_new == total_abs_exposure(ps.update(i, p_new)),
{
    lemma_total_abs_exposure_update(ps, i, p_new);
}

/// Collateral invariant: a position's collateral is carried as an
/// unsigned quantity, so it is non-negative at every observation point,
/// in every reachable state.
pub proof fn lemma_collateral_nonnegative(p: Position)
    ensures
        p.collateral >= 0,
{
}

/// Liquidation boundary: for a position with exposure, settled funding
/// and no unrealized PnL (entry price at the mark), liquidation is
/// rejected with `NotLiquidatable` exactly when its health meets the
/// minimum collateral ratio; in particular, health at or above the
/// threshold always rejects, and health strictly below it (the market's
/// open interest covering the position) always liquidates.
pub proof fn lemma_liquidation_boundary(p: Position, m: MarketState)
    requires
        p.base_amount != 0,
        p.last_funding_index == m.funding_index,
        p.entry_price == m.mark_price,
        position_value_fits(abs_i(p.base_amount as int), m.mark_price as int),
    ensures
        health_of(p, m.mark_price as int) >= MIN_COLLATERAL_RATIO <==> liquidate_result(p, m)
            == Err::<(Position, MarketState, u64), PerpError>(PerpError::NotLiquidatable),
        health_of(p, m.mark_price as int) < MIN_COLLATERAL_RATIO && m.open_interest >= abs_i(
            p.base_amount as int,
        ) ==> liquidate_result(p, m) matches Ok(_),
{
    assert(p.base_amount * (m.funding_index - p.last_funding_index) == 0);
    assert((m.mark_price - p.entry_price) * p.base_amount == 0);
}

} // verus!
