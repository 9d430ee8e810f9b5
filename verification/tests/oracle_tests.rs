use perps_core::errors::PerpsError;
use perps_core::oracle::{
    aggregate_oracle_prices, calculate_deviation_bps, emergency_price_fallback, health_check,
    read_oracle_fp, read_oracle_with_config, update_oracle_price, OracleConfig, PythPriceAccount,
};
use perps_core::state::OraclePrice;

fn fresh_oracle(price_fp: u128, last_updated_ts: i64) -> OraclePrice {
    OraclePrice {
        price_fp,
        last_updated_ts,
        confidence_fp: 0,
        num_publishers: 3,
        is_valid: true,
    }
}

fn good_feed(price: i64, expo: i32, timestamp: i64) -> PythPriceAccount {
    PythPriceAccount {
        magic: 0xa1b2c3d4,
        version: 2,
        price_type: 1,
        size: 0,
        price,
        confidence: 0,
        timestamp,
        min_publishers: 3,
        num_publishers: 5,
        expo,
    }
}

#[test]
fn test_deviation_calculation() {
    assert_eq!(calculate_deviation_bps(100_000_000, 105_000_000), 476); // ~4.76%
    assert_eq!(calculate_deviation_bps(100_000_000, 95_000_000), 500); // 5% of the higher
    assert_eq!(calculate_deviation_bps(100_000_000, 100_000_000), 0); // 0%
}

#[test]
fn test_aggregate_weights() {
    let primary = 100_000_000u128; // $100
    let pyth = 102_000_000u128; // $102
    let expected = (primary * 70 + pyth * 30) / 100; // $100.60
    assert_eq!(expected, 100_600_000);
}

#[test]
fn test_oracle_staleness_boundary() {
    let oracle = fresh_oracle(100_000_000, 1_000);
    // A price exactly at the staleness bound is accepted.
    assert_eq!(read_oracle_fp(&oracle, 1_060), Ok(100_000_000));
    // One second older is rejected.
    assert_eq!(read_oracle_fp(&oracle, 1_061), Err(PerpsError::BadOracle));
}

#[test]
fn test_oracle_rejects_zero_price() {
    let oracle = fresh_oracle(0, 1_000);
    assert_eq!(read_oracle_fp(&oracle, 1_000), Err(PerpsError::BadOracle));
}

#[test]
fn test_oracle_custom_staleness() {
    let oracle = fresh_oracle(42, 0);
    let config = OracleConfig {
        max_staleness_seconds: 5,
        ..OracleConfig::default()
    };
    assert_eq!(read_oracle_with_config(&oracle, &config, 5), Ok(42));
    assert_eq!(
        read_oracle_with_config(&oracle, &config, 6),
        Err(PerpsError::BadOracle)
    );
}

#[test]
fn test_pyth_validation() {
    let config = OracleConfig::default();
    let now = 1_000;
    // A well-formed feed at the engine's own scale passes through.
    assert_eq!(
        perps_core::oracle::read_pyth_price(&good_feed(100_000_000, 0, 1_000), &config, now),
        Ok(100_000_000)
    );
    // A positive exponent scales up, a negative one scales down.
    assert_eq!(
        perps_core::oracle::read_pyth_price(&good_feed(100, 6, 1_000), &config, now),
        Ok(100_000_000)
    );
    assert_eq!(
        perps_core::oracle::read_pyth_price(&good_feed(100_000_000_000, -3, 1_000), &config, now),
        Ok(100_000_000)
    );
    // Wrong magic tag.
    let mut feed = good_feed(100_000_000, 0, 1_000);
    feed.magic = 0xdeadbeef;
    assert_eq!(
        perps_core::oracle::read_pyth_price(&feed, &config, now),
        Err(PerpsError::BadOracle)
    );
    // Too few publishers.
    let mut feed = good_feed(100_000_000, 0, 1_000);
    feed.num_publishers = 2;
    assert_eq!(
        perps_core::oracle::read_pyth_price(&feed, &config, now),
        Err(PerpsError::OracleConfidenceLow)
    );
    // Stale feed.
    assert_eq!(
        perps_core::oracle::read_pyth_price(&good_feed(100_000_000, 0, 900), &config, 1_000),
        Err(PerpsError::BadOracle)
    );
    // Non-positive price.
    assert_eq!(
        perps_core::oracle::read_pyth_price(&good_feed(-5, 0, 1_000), &config, now),
        Err(PerpsError::BadOracle)
    );
    // A price that scales down to nothing is malformed.
    assert_eq!(
        perps_core::oracle::read_pyth_price(&good_feed(5, -3, 1_000), &config, now),
        Err(PerpsError::BadOracle)
    );
    // A confidence interval above five percent of the price is rejected.
    let mut feed = good_feed(100_000_000, 0, 1_000);
    feed.confidence = 6_000_000;
    assert_eq!(
        perps_core::oracle::read_pyth_price(&feed, &config, now),
        Err(PerpsError::OracleConfidenceLow)
    );
}

#[test]
fn test_aggregate_primary_only() {
    let config = OracleConfig::default();
    let primary = fresh_oracle(100_000_000, 1_000);
    assert_eq!(
        aggregate_oracle_prices(&primary, None, &config, 1_000),
        Ok(100_000_000)
    );
}

#[test]
fn test_aggregate_with_secondary() {
    let config = OracleConfig::default();
    let primary = fresh_oracle(100_000_000, 1_000);
    // Within the two-percent band: seventy-thirty weighted average.
    let feed = good_feed(102_000_000, 0, 1_000);
    assert_eq!(
        aggregate_oracle_prices(&primary, Some(&feed), &config, 1_000),
        Ok(100_600_000)
    );
    // Beyond the band: the read is rejected.
    let far = good_feed(110_000_000, 0, 1_000);
    assert_eq!(
        aggregate_oracle_prices(&primary, Some(&far), &config, 1_000),
        Err(PerpsError::OraclePriceDeviation)
    );
    // A failing secondary falls back silently to the primary.
    let mut broken = good_feed(102_000_000, 0, 1_000);
    broken.magic = 0;
    assert_eq!(
        aggregate_oracle_prices(&primary, Some(&broken), &config, 1_000),
        Ok(100_000_000)
    );
    // A failing primary is an error even with a good secondary.
    let stale_primary = fresh_oracle(100_000_000, 0);
    assert_eq!(
        aggregate_oracle_prices(&stale_primary, Some(&feed), &config, 1_000),
        Err(PerpsError::BadOracle)
    );
}

#[test]
fn test_emergency_fallback() {
    // Three positive samples: their arithmetic mean.
    assert_eq!(
        emergency_price_fallback(&[100, 200, 300, 0, 0]),
        Ok(200)
    );
    assert_eq!(
        emergency_price_fallback(&[100, 200, 300, 400, 500]),
        Ok(300)
    );
    // Fewer than three positive samples: no feed.
    assert_eq!(
        emergency_price_fallback(&[100, 0, 0, 0, 200]),
        Err(PerpsError::OracleFeedNotFound)
    );
    assert_eq!(
        emergency_price_fallback(&[0, 0, 0, 0, 0]),
        Err(PerpsError::OracleFeedNotFound)
    );
}

#[test]
fn test_update_oracle_circuit_breaker() {
    let mut oracle = fresh_oracle(100_000_000, 1_000);
    // A twenty-percent jump against a ten-percent threshold trips the breaker.
    assert_eq!(
        update_oracle_price(&mut oracle, 120_000_000, 1_000, 2_000),
        Err(PerpsError::CircuitBreakerTriggered)
    );
    assert_eq!(oracle.price_fp, 100_000_000);
    assert_eq!(oracle.last_updated_ts, 1_000);
    // A five-percent move commits.
    assert_eq!(update_oracle_price(&mut oracle, 105_000_000, 1_000, 2_000), Ok(()));
    assert_eq!(oracle.price_fp, 105_000_000);
    assert_eq!(oracle.last_updated_ts, 2_000);
}

#[test]
fn test_update_oracle_from_zero() {
    // A zero stored price accepts any first value without a breaker check.
    let mut oracle = fresh_oracle(0, 0);
    assert_eq!(update_oracle_price(&mut oracle, 77, 100, 50), Ok(()));
    assert_eq!(oracle.price_fp, 77);
    assert_eq!(oracle.last_updated_ts, 50);
}

#[test]
fn test_health_check() {
    let oracle = fresh_oracle(100_000_000, 1_000);
    // Fresh record, sane price.
    assert_eq!(health_check(&oracle, 100_000_000, 1_200), Ok(()));
    // Stale beyond the five-minute health window.
    assert_eq!(
        health_check(&oracle, 100_000_000, 1_301),
        Err(PerpsError::BadOracle)
    );
    // A zero price used for the mutation is invalid.
    assert_eq!(
        health_check(&oracle, 0, 1_200),
        Err(PerpsError::InvalidPrice)
    );
    // A fall beyond half the stored price is rejected.
    assert_eq!(
        health_check(&oracle, 49_000_000, 1_200),
        Err(PerpsError::OraclePriceDeviation)
    );
    // A fall of exactly half passes.
    assert_eq!(health_check(&oracle, 50_000_000, 1_200), Ok(()));
}
