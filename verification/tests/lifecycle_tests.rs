use perps_core::errors::PerpsError;
use perps_core::lifecycle::{
    execute_stop_loss, modify_position_margin, partial_close_position, set_stop_loss,
};
use perps_core::state::{Config, Market, OraclePrice, StopLossOrder, UserPosition};
use perps_core::trade::close_position;

const FP: u128 = 1_000_000;

fn test_config(fee_bps: u16) -> Config {
    Config {
        fee_bps,
        liq_fee_bps: 50,
        creator_reward_bps: 0,
        paused: false,
        max_positions_per_user: 50,
        max_total_positions: 10_000,
        emergency_pause_threshold: 1_000_000,
        circuit_breaker_threshold_bps: 1_000,
    }
}

fn test_market(maintenance_margin_bps: u16) -> Market {
    Market {
        symbol: *b"ETH\0\0\0\0\0\0\0\0\0",
        base_decimals: 6,
        amm_base_reserve_fp: 0,
        amm_quote_reserve_fp: 0,
        funding_rate_fp: 0,
        last_funding_ts: 0,
        cumulative_funding_long_fp: 0,
        cumulative_funding_short_fp: 0,
        skew_k_bps: 0,
        max_position_base: 1_000_000,
        maintenance_margin_bps,
        taker_leverage_cap_x: 20,
        total_long_size: 100,
        total_short_size: 0,
        total_volume: 0,
        is_paused: false,
        max_funding_rate_fp: 0,
        max_skew_ratio: 0,
    }
}

fn long_position(base: i64, margin: u64, entry_fp: u128) -> UserPosition {
    UserPosition {
        is_long: true,
        base_size: base,
        entry_price_fp: entry_fp,
        margin_deposited: margin,
        last_funding_settled: 0,
        funding_debt_fp: 0,
        liquidation_price_fp: 0,
        last_updated_ts: 0,
        realized_pnl_fp: 0,
        total_fees_paid: 0,
    }
}

fn oracle_at(price_fp: u128, last_updated_ts: i64) -> OraclePrice {
    OraclePrice {
        price_fp,
        last_updated_ts,
        confidence_fp: 0,
        num_publishers: 3,
        is_valid: true,
    }
}

fn inactive_order() -> StopLossOrder {
    StopLossOrder {
        trigger_price_fp: 0,
        close_percentage: 0,
        is_active: false,
        created_at: 0,
        executed_at: None,
    }
}

#[test]
fn test_partial_close_quarter() {
    let cfg = test_config(0);
    let mut market = test_market(625);
    let mut pos = long_position(100, 1_000, 100 * FP);
    let oracle = oracle_at(100 * FP, 1_000);
    let closed = partial_close_position(&cfg, &mut market, &mut pos, &oracle, 1_000, 25)
        .expect("partial close should succeed");
    assert_eq!(closed.closed_size, 25);
    assert_eq!(closed.remaining_size, 75);
    assert_eq!(closed.pnl_fp, 0);
    // Settlement at an unmoved price with no fee is the closed notional.
    assert_eq!(closed.settlement_amount, 2_500);
    assert_eq!(closed.fees_paid, 0);
    // The margin scales with the remaining size, preserving leverage.
    assert_eq!(pos.base_size, 75);
    assert_eq!(pos.margin_deposited, 750);
    assert_eq!(pos.entry_price_fp, 100 * FP);
    assert_eq!(market.total_long_size, 75);
}

#[test]
fn test_partial_close_then_full_close_empties() {
    let cfg = test_config(0);
    let mut market = test_market(625);
    let mut pos = long_position(100, 1_000, 100 * FP);
    let oracle = oracle_at(100 * FP, 1_000);
    partial_close_position(&cfg, &mut market, &mut pos, &oracle, 1_000, 25)
        .expect("partial close should succeed");
    // Closing the remainder leaves nothing behind.
    close_position(&cfg, &mut market, &mut pos, &oracle, 1_000).expect("close should succeed");
    assert_eq!(pos.base_size, 0);
    assert_eq!(pos.margin_deposited, 0);
    assert_eq!(market.total_long_size, 0);
}

#[test]
fn test_partial_close_rejections() {
    let cfg = test_config(0);
    let mut market = test_market(625);
    let mut pos = long_position(100, 1_000, 100 * FP);
    let oracle = oracle_at(100 * FP, 1_000);
    // Percentage out of the open interval.
    assert_eq!(
        partial_close_position(&cfg, &mut market, &mut pos, &oracle, 1_000, 0),
        Err(PerpsError::InvalidClosePercentage)
    );
    assert_eq!(
        partial_close_position(&cfg, &mut market, &mut pos, &oracle, 1_000, 100),
        Err(PerpsError::InvalidClosePercentage)
    );
    // A close that rounds to nothing.
    let mut tiny = long_position(2, 10, 100 * FP);
    assert_eq!(
        partial_close_position(&cfg, &mut market, &mut tiny, &oracle, 1_000, 25),
        Err(PerpsError::PositionTooSmall)
    );
    // No open position.
    let mut empty = long_position(100, 1_000, 100 * FP);
    empty.base_size = 0;
    assert_eq!(
        partial_close_position(&cfg, &mut market, &mut empty, &oracle, 1_000, 25),
        Err(PerpsError::PositionNotFound)
    );
}

#[test]
fn test_partial_close_extremes() {
    let cfg = test_config(0);
    let oracle = oracle_at(100 * FP, 1_000);
    // One percent of a hundred units closes exactly one unit.
    let mut market = test_market(625);
    let mut pos = long_position(100, 1_000, 100 * FP);
    let closed = partial_close_position(&cfg, &mut market, &mut pos, &oracle, 1_000, 1)
        .expect("one percent close should succeed");
    assert_eq!(closed.closed_size, 1);
    assert_eq!(pos.base_size, 99);
    // Ninety-nine percent leaves a single unit behind.
    let mut market = test_market(625);
    let mut pos = long_position(100, 1_000, 100 * FP);
    let closed = partial_close_position(&cfg, &mut market, &mut pos, &oracle, 1_000, 99)
        .expect("ninety-nine percent close should succeed");
    assert_eq!(closed.closed_size, 99);
    assert_eq!(pos.base_size, 1);
    assert_eq!(pos.margin_deposited, 10);
}

#[test]
fn test_partial_close_would_be_liquidated() {
    let cfg = test_config(0);
    // Half the notional is required as maintenance margin.
    let mut market = test_market(5_000);
    let mut pos = long_position(100, 600, 100 * FP);
    let oracle = oracle_at(100 * FP, 1_000);
    // After closing half, margin 300 would sit far below the required
    // half of the remaining notional (2,500), at the very price used.
    assert_eq!(
        partial_close_position(&cfg, &mut market, &mut pos, &oracle, 1_000, 50),
        Err(PerpsError::WouldBeLiquidated)
    );
    // Nothing changed.
    assert_eq!(pos.base_size, 100);
    assert_eq!(pos.margin_deposited, 600);
}

#[test]
fn test_modify_margin_add() {
    let market = test_market(625);
    let mut pos = long_position(10, 100, 100 * FP);
    let oracle = oracle_at(100 * FP, 1_000);
    let modified = modify_position_margin(&market, &mut pos, &oracle, 1_000, 50)
        .expect("adding margin should succeed");
    assert_eq!(modified.margin_change, 50);
    assert_eq!(modified.new_margin, 150);
    assert_eq!(pos.margin_deposited, 150);
}

#[test]
fn test_modify_margin_remove() {
    let market = test_market(625);
    let mut pos = long_position(10, 200, 100 * FP);
    let oracle = oracle_at(100 * FP, 1_000);
    // Maintenance on 10 units at 100 with 625 bps is 62.5, so dropping
    // to 100 is fine.
    let modified = modify_position_margin(&market, &mut pos, &oracle, 1_000, -100)
        .expect("removing margin should succeed");
    assert_eq!(modified.new_margin, 100);
    assert_eq!(pos.margin_deposited, 100);
    // Removing at least the whole deposit is rejected.
    assert_eq!(
        modify_position_margin(&market, &mut pos, &oracle, 1_000, -100),
        Err(PerpsError::InsufficientFunds)
    );
    // Removing down to below the maintenance requirement is rejected.
    assert_eq!(
        modify_position_margin(&market, &mut pos, &oracle, 1_000, -50),
        Err(PerpsError::WouldBeLiquidated)
    );
    assert_eq!(pos.margin_deposited, 100);
    // A zero change is a no-op.
    let modified = modify_position_margin(&market, &mut pos, &oracle, 1_000, 0)
        .expect("zero change is accepted");
    assert_eq!(modified.new_margin, 100);
}

#[test]
fn test_modify_margin_rejections() {
    let mut market = test_market(625);
    let mut pos = long_position(10, 100, 100 * FP);
    let oracle = oracle_at(100 * FP, 1_000);
    market.is_paused = true;
    assert_eq!(
        modify_position_margin(&market, &mut pos, &oracle, 1_000, 50),
        Err(PerpsError::MarketPaused)
    );
    market.is_paused = false;
    pos.base_size = 0;
    assert_eq!(
        modify_position_margin(&market, &mut pos, &oracle, 1_000, 50),
        Err(PerpsError::PositionNotFound)
    );
}

#[test]
fn test_set_stop_loss_sides() {
    let mut order = inactive_order();
    let oracle = oracle_at(100 * FP, 1_000);
    let long = long_position(10, 100, 100 * FP);
    // A stop at 90 under a current price of 100 is accepted for a long.
    set_stop_loss(&long, &mut order, &oracle, 1_000, 90 * FP, 50)
        .expect("stop loss below the price is valid for a long");
    assert!(order.is_active);
    assert_eq!(order.trigger_price_fp, 90 * FP);
    assert_eq!(order.close_percentage, 50);
    assert_eq!(order.created_at, 1_000);
    assert_eq!(order.executed_at, None);
    // A stop at 105 for the same long is rejected.
    let mut other = inactive_order();
    assert_eq!(
        set_stop_loss(&long, &mut other, &oracle, 1_000, 105 * FP, 50),
        Err(PerpsError::InvalidStopLoss)
    );
    assert!(!other.is_active);
    // For a short the trigger must sit above the price.
    let mut short = long_position(-10, 100, 100 * FP);
    short.is_long = false;
    assert_eq!(
        set_stop_loss(&short, &mut other, &oracle, 1_000, 90 * FP, 50),
        Err(PerpsError::InvalidStopLoss)
    );
    set_stop_loss(&short, &mut other, &oracle, 1_000, 110 * FP, 100)
        .expect("stop loss above the price is valid for a short");
}

#[test]
fn test_set_stop_loss_rejections() {
    let mut order = inactive_order();
    let oracle = oracle_at(100 * FP, 1_000);
    let long = long_position(10, 100, 100 * FP);
    assert_eq!(
        set_stop_loss(&long, &mut order, &oracle, 1_000, 90 * FP, 0),
        Err(PerpsError::InvalidMarketParameters)
    );
    assert_eq!(
        set_stop_loss(&long, &mut order, &oracle, 1_000, 90 * FP, 101),
        Err(PerpsError::InvalidMarketParameters)
    );
    assert_eq!(
        set_stop_loss(&long, &mut order, &oracle, 1_000, 0, 50),
        Err(PerpsError::InvalidPrice)
    );
    let mut empty = long_position(0, 0, 0);
    empty.base_size = 0;
    assert_eq!(
        set_stop_loss(&empty, &mut order, &oracle, 1_000, 90 * FP, 50),
        Err(PerpsError::PositionNotFound)
    );
}

#[test]
fn test_execute_stop_loss_full() {
    let cfg = test_config(0);
    let mut market = test_market(625);
    let mut pos = long_position(10, 200, 100 * FP);
    let set_oracle = oracle_at(100 * FP, 1_000);
    let mut order = inactive_order();
    set_stop_loss(&pos, &mut order, &set_oracle, 1_000, 90 * FP, 100)
        .expect("setting the stop should succeed");
    // Above the trigger nothing fires.
    let high = oracle_at(95 * FP, 2_000);
    assert_eq!(
        execute_stop_loss(&cfg, &mut market, &mut pos, &mut order, &high, 2_000),
        Err(PerpsError::StopLossNotTriggered)
    );
    // At 85 the order fires and settles like a full close: margin 200
    // plus pnl of -150 gives 50.
    let low = oracle_at(85 * FP, 3_000);
    let executed = execute_stop_loss(&cfg, &mut market, &mut pos, &mut order, &low, 3_000)
        .expect("triggered stop should execute");
    assert_eq!(executed.close_percentage, 100);
    assert_eq!(executed.executed_price_fp, 85 * FP);
    assert_eq!(executed.closed_size, 10);
    assert_eq!(executed.settlement_amount, 50);
    assert_eq!(executed.fees_paid, 0);
    assert_eq!(pos.base_size, 0);
    assert_eq!(pos.margin_deposited, 0);
    assert_eq!(pos.entry_price_fp, 0);
    assert_eq!(pos.realized_pnl_fp, -150_000_000);
    assert!(!order.is_active);
    assert_eq!(order.executed_at, Some(3_000));
    // A spent order cannot fire again.
    assert_eq!(
        execute_stop_loss(&cfg, &mut market, &mut pos, &mut order, &low, 3_000),
        Err(PerpsError::OrderNotActive)
    );
}

#[test]
fn test_execute_stop_loss_partial() {
    let cfg = test_config(0);
    let mut market = test_market(625);
    let mut pos = long_position(100, 1_000, 100 * FP);
    let set_oracle = oracle_at(100 * FP, 1_000);
    let mut order = inactive_order();
    set_stop_loss(&pos, &mut order, &set_oracle, 1_000, 90 * FP, 50)
        .expect("setting the stop should succeed");
    let low = oracle_at(90 * FP, 2_000);
    let executed = execute_stop_loss(&cfg, &mut market, &mut pos, &mut order, &low, 2_000)
        .expect("triggered stop should execute");
    assert_eq!(executed.close_percentage, 50);
    assert_eq!(executed.closed_size, 50);
    // Settlement is the closed exit notional adjusted by the loss:
    // 50 * 90 - 50 * 10 = 4,000.
    assert_eq!(executed.settlement_amount, 4_000);
    assert_eq!(pos.base_size, 50);
    assert_eq!(pos.margin_deposited, 500);
    assert_eq!(pos.realized_pnl_fp, -500_000_000);
    assert!(!order.is_active);
    assert_eq!(market.total_long_size, 50);
}
