use perps_core::admin::{
    create_market, edit_max_position, initialize_config, pause, update_risk_parameters,
};
use perps_core::errors::PerpsError;

#[test]
fn test_initialize_config_defaults() {
    let cfg = initialize_config(30, 50, 100).expect("valid parameters must be accepted");
    assert_eq!(cfg.fee_bps, 30);
    assert_eq!(cfg.liq_fee_bps, 50);
    assert_eq!(cfg.creator_reward_bps, 100);
    assert!(!cfg.paused);
    assert_eq!(cfg.max_positions_per_user, 50);
    assert_eq!(cfg.max_total_positions, 10_000);
    assert_eq!(cfg.emergency_pause_threshold, 1_000_000);
    assert_eq!(cfg.circuit_breaker_threshold_bps, 1_000);
}

#[test]
fn test_initialize_config_bounds() {
    // Trading fee above ten percent.
    assert_eq!(
        initialize_config(1_001, 50, 100),
        Err(PerpsError::InvalidProtocolConfig)
    );
    // Liquidation fee above twenty percent.
    assert_eq!(
        initialize_config(30, 2_001, 100),
        Err(PerpsError::InvalidProtocolConfig)
    );
    // Creator reward above fifty percent.
    assert_eq!(
        initialize_config(30, 50, 5_001),
        Err(PerpsError::InvalidProtocolConfig)
    );
    // The documented maxima themselves are accepted.
    assert!(initialize_config(1_000, 2_000, 5_000).is_ok());
}

#[test]
fn test_pause_toggles() {
    let mut cfg = initialize_config(30, 50, 100).unwrap();
    pause(&mut cfg, true);
    assert!(cfg.paused);
    pause(&mut cfg, false);
    assert!(!cfg.paused);
}

#[test]
fn test_update_risk_parameters() {
    let mut cfg = initialize_config(30, 50, 100).unwrap();
    // Both given and in bounds.
    update_risk_parameters(&mut cfg, Some(100), Some(2_000)).unwrap();
    assert_eq!(cfg.max_positions_per_user, 100);
    assert_eq!(cfg.circuit_breaker_threshold_bps, 2_000);
    // An absent parameter is left alone.
    update_risk_parameters(&mut cfg, None, Some(300)).unwrap();
    assert_eq!(cfg.max_positions_per_user, 100);
    assert_eq!(cfg.circuit_breaker_threshold_bps, 300);
    // Out-of-bounds values reject the whole update without mutation.
    assert_eq!(
        update_risk_parameters(&mut cfg, Some(0), Some(400)),
        Err(PerpsError::InvalidProtocolConfig)
    );
    assert_eq!(
        update_risk_parameters(&mut cfg, Some(201), None),
        Err(PerpsError::InvalidProtocolConfig)
    );
    assert_eq!(
        update_risk_parameters(&mut cfg, Some(10), Some(99)),
        Err(PerpsError::InvalidProtocolConfig)
    );
    assert_eq!(
        update_risk_parameters(&mut cfg, None, Some(5_001)),
        Err(PerpsError::InvalidProtocolConfig)
    );
    assert_eq!(cfg.max_positions_per_user, 100);
    assert_eq!(cfg.circuit_breaker_threshold_bps, 300);
}

#[test]
fn test_create_market_and_edit_cap() {
    let mut market = create_market(
        *b"BTC\0\0\0\0\0\0\0\0\0",
        6,
        100,
        1_000_000,
        625,
        20,
        0,
        0,
        1_000,
    )
    .expect("valid market parameters must be accepted");
    assert_eq!(market.maintenance_margin_bps, 625);
    assert_eq!(market.max_position_base, 1_000_000);
    assert_eq!(market.total_long_size, 0);
    assert_eq!(market.total_short_size, 0);
    assert_eq!(market.total_volume, 0);
    assert!(!market.is_paused);
    assert_eq!(market.last_funding_ts, 1_000);
    // The cap can be raised but never zeroed.
    edit_max_position(&mut market, 2_000_000).unwrap();
    assert_eq!(market.max_position_base, 2_000_000);
    assert_eq!(
        edit_max_position(&mut market, 0),
        Err(PerpsError::InvalidMarketParameters)
    );
    assert_eq!(market.max_position_base, 2_000_000);
}

#[test]
fn test_create_market_bounds() {
    let symbol = *b"BTC\0\0\0\0\0\0\0\0\0";
    // Maintenance above one hundred percent.
    assert_eq!(
        create_market(symbol, 6, 100, 1_000_000, 10_001, 20, 0, 0, 0),
        Err(PerpsError::InvalidMarketParameters)
    );
    // A leverage cap of zero.
    assert_eq!(
        create_market(symbol, 6, 100, 1_000_000, 625, 0, 0, 0, 0),
        Err(PerpsError::InvalidMarketParameters)
    );
    // A position cap of zero.
    assert_eq!(
        create_market(symbol, 6, 100, 0, 625, 20, 0, 0, 0),
        Err(PerpsError::InvalidMarketParameters)
    );
}

#[test]
fn test_market_skew() {
    let mut market = create_market(
        *b"ETH\0\0\0\0\0\0\0\0\0",
        6,
        100,
        1_000_000,
        625,
        20,
        0,
        0,
        0,
    )
    .unwrap();
    // All longs against no shorts reads as the maximum skew.
    market.total_long_size = 10;
    assert_eq!(market.skew_ratio(), u32::MAX);
    assert!(!market.is_balanced());
    // Even interest is perfectly balanced.
    market.total_short_size = 10;
    assert_eq!(market.skew_ratio(), 10_000);
    assert!(market.is_balanced());
    // Half again as many longs sits at the edge of balance.
    market.total_long_size = 15;
    assert_eq!(market.skew_ratio(), 15_000);
    assert!(market.is_balanced());
    market.total_long_size = 16;
    assert!(!market.is_balanced());
}

#[test]
fn test_error_codes() {
    assert_eq!(PerpsError::MathOverflow.to_error_code(), 6000);
    assert_eq!(PerpsError::DivisionByZero.to_error_code(), 6001);
    assert_eq!(PerpsError::LeverageTooHigh.to_error_code(), 6020);
    assert_eq!(PerpsError::InvalidClosePercentage.to_error_code(), 6030);
    assert_eq!(PerpsError::BadOracle.to_error_code(), 6040);
    assert_eq!(PerpsError::MarketPaused.to_error_code(), 6060);
    assert_eq!(PerpsError::Unauthorized.to_error_code(), 6080);
    assert_eq!(PerpsError::CircuitBreakerTriggered.to_error_code(), 6102);
    assert_eq!(PerpsError::InsufficientBalance.to_error_code(), 6120);
    assert_eq!(PerpsError::FundingRateError.to_error_code(), 6140);
    assert_eq!(PerpsError::ProtocolPaused.to_error_code(), 6160);
    assert_eq!(PerpsError::StopLossConditionNotMet.to_error_code(), 6189);
}

#[test]
fn test_error_classification() {
    // Recoverable: the caller may simply retry later.
    assert!(PerpsError::BadOracle.is_recoverable());
    assert!(PerpsError::OracleConfidenceLow.is_recoverable());
    assert!(PerpsError::InsufficientLiquidity.is_recoverable());
    assert!(PerpsError::MarketImpactTooHigh.is_recoverable());
    assert!(!PerpsError::MathOverflow.is_recoverable());
    // Emergency-pause class: operator intervention, not a retry.
    assert!(PerpsError::OracleConsensusFailure.requires_emergency_pause());
    assert!(PerpsError::CircuitBreakerTriggered.requires_emergency_pause());
    assert!(PerpsError::ExceedsRiskLimits.requires_emergency_pause());
    assert!(!PerpsError::BadOracle.requires_emergency_pause());
}
