//! Core data model: account identities, positions, the market singleton,
//! and the error kinds shared by every operation.

use vstd::prelude::*;

verus! {

/// Fixed-point scale: all prices, sizes and rates carry nine decimal places.
pub const SCALE: u64 = 1_000_000_000;

/// Minimum collateral ratio a position must keep (150%, in `SCALE` units).
pub const MIN_COLLATERAL_RATIO: u64 = 1_500_000_000;

/// Penalty rate paid to the liquidator (10%, in `SCALE` units).
pub const LIQUIDATION_PENALTY: u64 = 100_000_000;

/// Identity of a principal (a 32-byte key, held as two plain words so
/// that equality is meaningful to the verifier).
#[derive(Clone, Copy, Debug, PartialEq, Eq, Structural)]
pub struct AccountId {
    pub hi: u128,
    pub lo: u128,
}

impl AccountId {
    pub fn new(hi: u128, lo: u128) -> (r: AccountId)
        ensures
            r.hi == hi,
            r.lo == lo,
    {
        AccountId { hi, lo }
    }
}

impl Default for AccountId {
    fn default() -> (r: AccountId)
        ensures
            r.hi == 0,
            r.lo == 0,
    {
        AccountId { hi: 0, lo: 0 }
    }
}

/// One user's position in the market.
#[derive(Clone, Copy, Debug, PartialEq, Eq, Structural)]
pub struct Position {
    /// Owner of the position; immutable after creation.
    pub owner: AccountId,
    /// Signed exposure in the base asset (positive = long, negative =
    /// short), `SCALE` precision.
    pub base_amount: i64,
    /// Quote-asset margin held for the owner; never negative, being unsigned.
    pub collateral: u64,
    /// Market funding index as of this position's last settlement.
    pub last_funding_index: i64,
    /// Reference price used for PnL, `SCALE` precision.
    pub entry_price: u64,
}

impl Position {
    /// A fresh, flat position owned by `owner`.
    pub fn new(owner: AccountId) -> (r: Position)
        ensures
            r.owner == owner,
            r.base_amount == 0,
            r.collateral == 0,
            r.last_funding_index == 0,
            r.entry_price == 0,
    {
        Position {
            owner,
            base_amount: 0,
            collateral: 0,
            last_funding_index: 0,
            entry_price: 0,
        }
    }
}

impl Default for Position {
    fn default() -> (r: Position)
        ensures
            r.owner == (AccountId { hi: 0, lo: 0 }),
            r.base_amount == 0,
            r.collateral == 0,
            r.last_funding_index == 0,
            r.entry_price == 0,
    {
        Position {
            owner: AccountId { hi: 0, lo: 0 },
            base_amount: 0,
            collateral: 0,
            last_funding_index: 0,
            entry_price: 0,
        }
    }
}

/// Shared, singleton state of the market.
#[derive(Clone, Copy, Debug, PartialEq, Eq, Structural)]
pub struct MarketState {
    /// Accumulating funding ledger, `SCALE` precision; never reset.
    pub funding_index: i64,
    /// Last per-tick funding rate that was applied, `SCALE` precision.
    pub funding_rate_per_slot: i64,
    /// Sum of `|base_amount|` over all positions in the market.
    pub open_interest: u64,
    /// Bump byte of the custody authority address (host-level detail,
    /// carried through unchanged).
    pub bump: u8,
    /// Last time tick at which funding was advanced.
    pub last_funding_slot: u64,
    /// Last price used to value positions, `SCALE` precision.
    pub mark_price: u64,
}

impl MarketState {
    /// The state a market starts in when it is first addressed: no open
    /// interest, zero funding, and the creating call's price as the mark.
    pub fn initial(bump: u8, now_slot: u64, price: u64) -> (r: MarketState)
        ensures
            r.funding_index == 0,
            r.funding_rate_per_slot == 0,
            r.open_interest == 0,
            r.bump == bump,
            r.last_funding_slot == now_slot,
            r.mark_price == price,
    {
        MarketState {
            funding_index: 0,
            funding_rate_per_slot: 0,
            open_interest: 0,
            bump,
            last_funding_slot: now_slot,
            mark_price: price,
        }
    }
}

impl Default for MarketState {
    fn default() -> (r: MarketState)
        ensures
            r.funding_index == 0,
            r.funding_rate_per_slot == 0,
            r.open_interest == 0,
            r.bump == 0,
            r.last_funding_slot == 0,
            r.mark_price == 0,
    {
        MarketState {
            funding_index: 0,
            funding_rate_per_slot: 0,
            open_interest: 0,
            bump: 0,
            last_funding_slot: 0,
            mark_price: 0,
        }
    }
}

/// Why an operation was rejected. Every failure aborts the whole
/// operation: no record is changed, no funds move.
#[derive(Clone, Copy, Debug, PartialEq, Eq, Structural)]
pub enum PerpError {
    /// The required principal did not sign the operation.
    MissingSignature,
    /// The instruction payload is shorter than its operation requires.
    InvalidPayload,
    /// The leading opcode byte names no operation.
    InvalidOpcode,
    /// An account stands at the wrong address for its role.
    AddressMismatch,
    /// The caller is not the owner of the addressed position.
    OwnershipMismatch,
    /// A checked computation exceeded its type's upper bound.
    ArithmeticOverflow,
    /// A checked computation fell below its type's lower bound.
    ArithmeticUnderflow,
    /// The position would be left under the minimum collateral ratio.
    InsufficientCollateral,
    /// The position is healthy, so it may not be liquidated.
    NotLiquidatable,
    /// The position has no exposure to liquidate.
    NoExposure,
    /// The clock reads earlier than the last funding tick.
    InvalidTimeline,
}

} // verus!
