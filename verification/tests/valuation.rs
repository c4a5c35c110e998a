use perps::AccountId;
use perps::MarketState;
use perps::PerpError;
use perps::Position;
use perps::calculate_position_health;
use perps::calculate_unrealized_pnl;

fn sample_position(base_amount: i64, collateral: u64, entry_price: u64) -> Position {
    Position {
        owner: AccountId::new(7, 9),
        base_amount,
        collateral,
        last_funding_index: 0,
        entry_price,
    }
}

#[test]
fn test_position_creation() {
    let mut position = Position::default();
    position.owner = AccountId::new(1, 2);
    position.base_amount = 1_000_000_000; // 1 unit long
    position.collateral = 150_000_000_000; // 150 units collateral
    position.entry_price = 100_000_000_000; // $100

    assert_eq!(position.base_amount, 1_000_000_000);
    assert_eq!(position.collateral, 150_000_000_000);
    assert!(position.base_amount > 0); // Long position
}

#[test]
fn test_market_state_initialization() {
    let market_state = MarketState {
        funding_index: 0,
        funding_rate_per_slot: 10_000, // 0.01%
        open_interest: 0,
        bump: 255,
        last_funding_slot: 1000,
        mark_price: 100_000_000_000,
    };

    assert_eq!(market_state.funding_index, 0);
    assert_eq!(market_state.funding_rate_per_slot, 10_000);
    assert_eq!(market_state.mark_price, 100_000_000_000);
}

#[test]
fn test_position_health_calculation() {
    let position = sample_position(1_000_000_000, 150_000_000_000, 100_000_000_000);

    let mark_price = 100_000_000_000; // $100
    let health = calculate_position_health(&position, mark_price).unwrap();

    // Collateral ratio should be 150% (1.5 * 1e9 = 1_500_000_000)
    assert_eq!(health, 1_500_000_000);
}

#[test]
fn test_position_health_with_price_movement() {
    let position = sample_position(1_000_000_000, 150_000_000_000, 100_000_000_000);

    // Price moves to $120 - position value increases for long
    let mark_price = 120_000_000_000;
    let health = calculate_position_health(&position, mark_price).unwrap();

    // Health should decrease as position value increased
    // 150 / 120 = 1.25 = 1_250_000_000
    assert_eq!(health, 1_250_000_000);
}

#[test]
fn test_unrealized_pnl_long_profit() {
    let position = sample_position(1_000_000_000, 150_000_000_000, 100_000_000_000);

    let mark_price = 110_000_000_000; // $110 current
    let pnl = calculate_unrealized_pnl(&position, mark_price).unwrap();

    // PnL = (110 - 100) * 1 = +10
    assert_eq!(pnl, 10_000_000_000);
}

#[test]
fn test_unrealized_pnl_long_loss() {
    let position = sample_position(1_000_000_000, 150_000_000_000, 100_000_000_000);

    let mark_price = 90_000_000_000; // $90 current
    let pnl = calculate_unrealized_pnl(&position, mark_price).unwrap();

    // PnL = (90 - 100) * 1 = -10
    assert_eq!(pnl, -10_000_000_000);
}

#[test]
fn test_unrealized_pnl_short_profit() {
    let position = sample_position(-1_000_000_000, 150_000_000_000, 100_000_000_000);

    let mark_price = 90_000_000_000; // $90 current
    let pnl = calculate_unrealized_pnl(&position, mark_price).unwrap();

    // PnL = (100 - 90) * 1 = +10 (profit on short when price drops)
    assert_eq!(pnl, 10_000_000_000);
}

#[test]
fn test_unrealized_pnl_short_loss() {
    let position = sample_position(-1_000_000_000, 150_000_000_000, 100_000_000_000);

    let mark_price = 110_000_000_000; // $110 current
    let pnl = calculate_unrealized_pnl(&position, mark_price).unwrap();

    // PnL = (100 - 110) * 1 = -10 (loss on short when price rises)
    assert_eq!(pnl, -10_000_000_000);
}

#[test]
fn test_funding_calculation() {
    let position = sample_position(1_000_000_000, 150_000_000_000, 100_000_000_000);

    let funding_index: i64 = 1_000_000; // Some accumulated funding

    // Funding payment = base_amount * funding_delta / 1e9
    let funding_payment =
        ((position.base_amount as i128) * (funding_index as i128)) / 1_000_000_000i128;

    // 1 unit * 1_000_000 / 1e9 = 1_000_000 (0.001 units at 1e9 scale)
    assert_eq!(funding_payment, 1_000_000);
}

#[test]
fn test_liquidation_threshold() {
    let position = sample_position(1_000_000_000, 100_000_000_000, 100_000_000_000);

    let mark_price = 100_000_000_000; // $100
    let health = calculate_position_health(&position, mark_price).unwrap();

    // Health = 100/100 = 1.0 = 1_000_000_000 (below 1.5 threshold)
    assert_eq!(health, 1_000_000_000);
    assert!(health < 1_500_000_000); // Should be liquidatable
}

#[test]
fn test_zero_position_health() {
    let position = sample_position(0, 100_000_000_000, 0);

    let mark_price = 100_000_000_000;
    let health = calculate_position_health(&position, mark_price).unwrap();

    // No position = perfect health
    assert_eq!(health, u64::MAX);
}

#[test]
fn test_precision_handling() {
    // Test that our precision scaling works correctly
    let price_100_50 = 100_500_000_000u64; // $100.50
    let size_1_5 = 1_500_000_000i64; // 1.5 units

    // Calculate position value: size * price / 1e9, at double width so
    // the product cannot overflow
    let position_value = perps::position_value(size_1_5 as u64, price_100_50).unwrap();

    // Should be 1.5 * 100.50 = 150.75
    assert_eq!(position_value, 150_750_000_000);
}

#[test]
fn test_flat_position_health_any_price() {
    // A flat position is perfectly healthy whatever the mark price.
    let position = sample_position(0, 0, 0);
    for mark_price in [0u64, 1, 1_000_000_000, u64::MAX] {
        assert_eq!(calculate_position_health(&position, mark_price).unwrap(), u64::MAX);
    }
}

#[test]
fn test_health_zero_value_is_max() {
    // A position whose notional value truncates to zero has maximal health.
    let position = sample_position(1, 1, 100);
    assert_eq!(calculate_position_health(&position, 100).unwrap(), u64::MAX);
}

#[test]
fn test_health_saturates_at_max() {
    // An enormous collateral against a tiny notional value saturates.
    let position = sample_position(1_000_000_000, u64::MAX, 1);
    assert_eq!(calculate_position_health(&position, 1).unwrap(), u64::MAX);
}

#[test]
fn test_health_value_overflow() {
    // |base| * price / 1e9 beyond u64::MAX is an arithmetic overflow.
    let position = sample_position(i64::MAX, 1, 0);
    assert_eq!(
        calculate_position_health(&position, u64::MAX),
        Err(PerpError::ArithmeticOverflow)
    );
}

#[test]
fn test_pnl_overflow() {
    // A PnL outside the i64 range is an arithmetic overflow.
    let position = sample_position(i64::MAX, 0, 0);
    assert_eq!(
        calculate_unrealized_pnl(&position, u64::MAX),
        Err(PerpError::ArithmeticOverflow)
    );
}

#[test]
fn test_pnl_truncates_toward_zero() {
    // -1/2 of a funding-sized move truncates toward zero, not downward.
    let position = sample_position(1, 0, 1_000_000_000);
    // diff = -1e9 scaled, size = 1: pnl = -1e9 * 1 / 1e9 = -1
    assert_eq!(calculate_unrealized_pnl(&position, 0).unwrap(), -1);
    let tiny = sample_position(1, 0, 999_999_999);
    // product 999_999_999 truncates to 0 even though it is negative
    assert_eq!(calculate_unrealized_pnl(&tiny, 0).unwrap(), 0);
}
