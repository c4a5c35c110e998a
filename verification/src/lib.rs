//! Single-asset perpetual-futures margin engine: per-user leveraged
//! positions, periodic funding accrual, collateral-ratio checks, and
//! liquidation of under-margined positions.
//!
//! All quantities are fixed-point integers with nine decimal places
//! (a scale of `1_000_000_000`); no floating point is used anywhere.

mod close;
mod funding;
mod instruction;
mod invariants;
mod liquidate;
mod math;
mod open;
mod settlement;
mod types;
mod valuation;

pub use close::close_position;
pub use funding::lemma_advance_funding_idempotent;
pub use funding::update_funding;
pub use funding::BASE_FUNDING_RATE;
pub use instruction::decode_instruction;
pub use instruction::i64_from_twos_complement;
pub use instruction::transfer_instruction_data;
pub use instruction::PerpInstruction;
pub use invariants::lemma_collateral_nonnegative;
pub use invariants::lemma_liquidation_boundary;
pub use invariants::lemma_open_interest_invariant;
pub use invariants::lemma_total_abs_exposure_update;
pub use liquidate::liquidate;
pub use open::open_position;
pub use types::AccountId;
pub use types::MarketState;
pub use types::PerpError;
pub use types::Position;
pub use types::LIQUIDATION_PENALTY;
pub use types::MIN_COLLATERAL_RATIO;
pub use types::SCALE;
pub use valuation::calculate_position_health;
pub use valuation::calculate_unrealized_pnl;
pub use valuation::collateral_ratio;
pub use valuation::position_value;
