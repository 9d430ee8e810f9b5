//! Oracle price validation and aggregation.
//!
//! Pure functions over price records and raw feed data: staleness,
//! positivity, confidence and cross-source deviation checks, weighted
//! aggregation of up to two sources, an emergency moving-average
//! fallback, and a circuit breaker gating writes to the canonical price.
//! The caller supplies the clock; nothing here reads it.

use vstd::prelude::*;
use vstd::arithmetic::div_mod::{lemma_div_is_ordered, lemma_div_multiples_vanish};
use vstd::arithmetic::mul::lemma_mul_inequality;
use crate::errors::PerpsError;
use crate::state::OraclePrice;

verus! {

/// Magic tag expected at the head of a raw external price record.
pub const PYTH_MAGIC: u32 = 0xa1b2c3d4;

/// Staleness window for post-mutation health checks, in seconds.
pub const HEALTH_CHECK_MAX_STALENESS_SECONDS: i64 = 300;

/// Largest price movement a health check tolerates, in basis points.
pub const MAX_HEALTH_DEVIATION_BPS: u64 = 5_000;

/// Largest price for which the basis-point deviation computation fits in
/// the machine width.
pub const DEVIATION_PRICE_MAX: u128 = u128::MAX / 10_000;

/// A raw external price record as published by the feed.
#[derive(Clone, Copy, Debug, PartialEq, Eq)]
pub struct PythPriceAccount {
    pub magic: u32,
    pub version: u32,
    pub price_type: u32,
    pub size: u32,
    pub price: i64,
    pub confidence: u64,
    pub timestamp: i64,
    pub min_publishers: u8,
    pub num_publishers: u8,
    pub expo: i32,
}

/// Validation thresholds for reading and combining price sources.
#[derive(Clone, Copy, Debug, PartialEq, Eq)]
pub struct OracleConfig {
    /// Maximum age of a price before it is rejected as stale, seconds.
    pub max_staleness_seconds: i64,
    /// Maximum confidence interval as a share of the price, basis points.
    pub max_confidence_deviation_bps: u64,
    /// Maximum deviation between two sources, basis points.
    pub max_price_deviation_bps: u64,
    /// Minimum number of publishers behind an external record.
    pub min_publishers: u8,
}

impl OracleConfig {
    /// The default thresholds: one minute staleness, five percent
    /// confidence, two percent cross-source deviation, three publishers.
    pub open spec fn spec_default() -> OracleConfig {
        OracleConfig {
            max_staleness_seconds: 60,
            max_confidence_deviation_bps: 500,
            max_price_deviation_bps: 200,
            min_publishers: 3,
        }
    }
}

impl Default for OracleConfig {
    fn default() -> (c: Self)
        ensures
            c == OracleConfig::spec_default(),
    {
        OracleConfig {
            max_staleness_seconds: 60,
            max_confidence_deviation_bps: 500,
            max_price_deviation_bps: 200,
            min_publishers: 3,
        }
    }
}

/// Whether the stored price passes validation at the given time: not
/// older than the staleness window and strictly positive.
pub open spec fn spec_oracle_valid(oracle: OraclePrice, config: OracleConfig, now: i64) -> bool {
    &&& now - oracle.last_updated_ts <= config.max_staleness_seconds
    &&& oracle.price_fp > 0
}

/// Validated oracle read: the stored price when fresh and positive, the
/// oracle error otherwise. A price exactly at the staleness bound is
/// still accepted; one second older is rejected.
pub fn read_oracle_with_config(oracle: &OraclePrice, config: &OracleConfig, now: i64) -> (r:
    Result<u128, PerpsError>)
    ensures
        spec_oracle_valid(*oracle, *config, now) ==> r == Ok::<u128, PerpsError>(oracle.price_fp),
        !spec_oracle_valid(*oracle, *config, now) ==> r == Err::<u128, PerpsError>(
            PerpsError::BadOracle,
        ),
{
    let age: i128 = (now as i128) - (oracle.last_updated_ts as i128);
    if age > config.max_staleness_seconds as i128 {
        return Err(PerpsError::BadOracle);
    }
    if oracle.price_fp == 0 {
        return Err(PerpsError::BadOracle);
    }
    Ok(oracle.price_fp)
}

/// Validated oracle read with the default thresholds.
pub fn read_oracle_fp(oracle: &OraclePrice, now: i64) -> (r: Result<u128, PerpsError>)
    ensures
        spec_oracle_valid(*oracle, OracleConfig::spec_default(), now) ==> r == Ok::<
            u128,
            PerpsError,
        >(oracle.price_fp),
        !spec_oracle_valid(*oracle, OracleConfig::spec_default(), now) ==> r == Err::<
            u128,
            PerpsError,
        >(PerpsError::BadOracle),
{
    let config = OracleConfig::default();
    read_oracle_with_config(oracle, &config, now)
}

/// Ten to the given power.
pub open spec fn pow10(e: nat) -> nat
    decreases e,
{
    if e == 0 {
        1
    } else {
        10 * pow10((e - 1) as nat)
    }
}

proof fn lemma_pow10_pos(e: nat)
    ensures
        pow10(e) >= 1,
    decreases e,
{
    if e > 0 {
        lemma_pow10_pos((e - 1) as nat);
    }
}

proof fn lemma_pow10_values()
    ensures
        pow10(0) == 1,
        pow10(1) == 10,
        pow10(2) == 100,
        pow10(3) == 1_000,
        pow10(4) == 10_000,
        pow10(5) == 100_000,
        pow10(6) == 1_000_000,
        pow10(7) == 10_000_000,
        pow10(8) == 100_000_000,
        pow10(9) == 1_000_000_000,
        pow10(10) == 10_000_000_000,
        pow10(11) == 100_000_000_000,
        pow10(12) == 1_000_000_000_000,
{
    assert(pow10(0) == 1);
    assert(pow10(1) == 10 * pow10(0));
    assert(pow10(2) == 10 * pow10(1));
    assert(pow10(3) == 10 * pow10(2));
    assert(pow10(4) == 10 * pow10(3));
    assert(pow10(5) == 10 * pow10(4));
    assert(pow10(6) == 10 * pow10(5));
    assert(pow10(7) == 10 * pow10(6));
    assert(pow10(8) == 10 * pow10(7));
    assert(pow10(9) == 10 * pow10(8));
    assert(pow10(10) == 10 * pow10(9));
    assert(pow10(11) == 10 * pow10(10));
    assert(pow10(12) == 10 * pow10(11));
}

/// Power-of-ten scale factor for feed exponents.
fn pow10_u128(k: u32) -> (r: u128)
    requires
        k <= 12,
    ensures
        r == pow10(k as nat),
{
    proof {
        lemma_pow10_values();
    }
    match k {
        0 => 1,
        1 => 10,
        2 => 100,
        3 => 1_000,
        4 => 10_000,
        5 => 100_000,
        6 => 1_000_000,
        7 => 10_000_000,
        8 => 100_000_000,
        9 => 1_000_000_000,
        10 => 10_000_000_000,
        11 => 100_000_000_000,
        _ => 1_000_000_000_000,
    }
}

/// A positive feed price brought to the engine's fixed-point scale by its
/// decimal exponent.
pub open spec fn spec_pyth_scaled_price(price: int, expo: int) -> int {
    if expo >= 0 {
        price * pow10(expo as nat)
    } else {
        price / pow10((-expo) as nat) as int
    }
}

/// What reading a raw external price record yields: the scaled price, or
/// the first failing validation. Malformed data (wrong magic, an absurd
/// exponent, a non-positive or vanishing price) reads as a bad oracle;
/// thin publisher coverage or a wide confidence interval as low
/// confidence.
pub open spec fn spec_read_pyth_price(feed: PythPriceAccount, config: OracleConfig, now: i64) -> Result<
    u128,
    PerpsError,
> {
    if feed.magic != PYTH_MAGIC {
        Err(PerpsError::BadOracle)
    } else if feed.num_publishers < config.min_publishers {
        Err(PerpsError::OracleConfidenceLow)
    } else if now - feed.timestamp > config.max_staleness_seconds {
        Err(PerpsError::BadOracle)
    } else if feed.price <= 0 {
        Err(PerpsError::BadOracle)
    } else if !(-12 <= feed.expo <= 12) {
        Err(PerpsError::BadOracle)
    } else if spec_pyth_scaled_price(feed.price as int, feed.expo as int) == 0 {
        Err(PerpsError::BadOracle)
    } else if feed.confidence * 10_000 / spec_pyth_scaled_price(feed.price as int, feed.expo as int)
        > config.max_confidence_deviation_bps {
        Err(PerpsError::OracleConfidenceLow)
    } else {
        Ok(spec_pyth_scaled_price(feed.price as int, feed.expo as int) as u128)
    }
}

/// Reads and validates a raw external price record: magic tag, publisher
/// count, staleness, positivity and exponent sanity, then the confidence
/// interval against the scaled price.
pub fn read_pyth_price(feed: &PythPriceAccount, config: &OracleConfig, now: i64) -> (r: Result<
    u128,
    PerpsError,
>)
    ensures
        r == spec_read_pyth_price(*feed, *config, now),
{
    if feed.magic != PYTH_MAGIC {
        return Err(PerpsError::BadOracle);
    }
    if feed.num_publishers < config.min_publishers {
        return Err(PerpsError::OracleConfidenceLow);
    }
    let age: i128 = (now as i128) - (feed.timestamp as i128);
    if age > config.max_staleness_seconds as i128 {
        return Err(PerpsError::BadOracle);
    }
    if feed.price <= 0 {
        return Err(PerpsError::BadOracle);
    }
    if feed.expo < -12 || feed.expo > 12 {
        return Err(PerpsError::BadOracle);
    }
    let price: u128 = feed.price as u128;
    let price_fp: u128 = if feed.expo >= 0 {
        let scale: u128 = pow10_u128(feed.expo as u32);
        proof {
            lemma_pow10_values();
            lemma_mul_inequality(price as int, i64::MAX as int, pow10(feed.expo as nat) as int);
        }
        price * scale
    } else {
        let scale: u128 = pow10_u128((-(feed.expo as i64)) as u32);
        proof {
            lemma_pow10_pos((-(feed.expo as int)) as nat);
        }
        price / scale
    };
    if price_fp == 0 {
        return Err(PerpsError::BadOracle);
    }
    let confidence_ratio_bps: u128 = ((feed.confidence as u128) * 10_000) / price_fp;
    if confidence_ratio_bps > config.max_confidence_deviation_bps as u128 {
        return Err(PerpsError::OracleConfidenceLow);
    }
    Ok(price_fp)
}

/// Relative gap between two prices in basis points of the higher one;
/// zero when both are zero.
pub open spec fn spec_deviation_bps(price1: u128, price2: u128) -> int {
    let hi = if price1 >= price2 {
        price1 as int
    } else {
        price2 as int
    };
    let lo = if price1 >= price2 {
        price2 as int
    } else {
        price1 as int
    };
    if hi == 0 {
        0
    } else {
        (hi - lo) * 10_000 / hi
    }
}

/// Relative gap between two prices in basis points of the higher one.
pub fn calculate_deviation_bps(price1: u128, price2: u128) -> (dev: u64)
    requires
        price1 <= DEVIATION_PRICE_MAX,
        price2 <= DEVIATION_PRICE_MAX,
    ensures
        dev == spec_deviation_bps(price1, price2),
        dev <= 10_000,
{
    let higher: u128 = if price1 >= price2 {
        price1
    } else {
        price2
    };
    let lower: u128 = if price1 >= price2 {
        price2
    } else {
        price1
    };
    if higher == 0 {
        return 0;
    }
    let deviation: u128 = ((higher - lower) * 10_000) / higher;
    proof {
        lemma_mul_inequality((higher - lower) as int, higher as int, 10_000);
        assert((higher - lower) * 10_000 == ((higher - lower) as int) * 10_000)
            by (nonlinear_arith);
        lemma_div_is_ordered((higher - lower) * 10_000, higher * 10_000, higher as int);
        lemma_div_multiples_vanish(10_000, higher as int);
        assert(higher * 10_000 == 10_000 * higher) by (nonlinear_arith);
        vstd::arithmetic::div_mod::lemma_div_pos_is_pos((higher - lower) * 10_000, higher as int);
    }
    deviation as u64
}

/// What aggregating a primary record with an optional external feed
/// yields: the primary alone when no secondary is given or the secondary
/// fails its own validation; a deviation error when the two disagree
/// beyond the threshold; otherwise the seventy-thirty weighted average,
/// truncated toward zero.
pub open spec fn spec_aggregate_oracle_prices(
    primary: OraclePrice,
    secondary: Option<PythPriceAccount>,
    config: OracleConfig,
    now: i64,
) -> Result<u128, PerpsError> {
    if !spec_oracle_valid(primary, config, now) {
        Err(PerpsError::BadOracle)
    } else {
        let p = primary.price_fp;
        match secondary {
            None => Ok(p),
            Some(feed) => match spec_read_pyth_price(feed, config, now) {
                Err(_) => Ok(p),
                Ok(q) => if p > DEVIATION_PRICE_MAX || q > DEVIATION_PRICE_MAX {
                    Err(PerpsError::MathOverflow)
                } else if spec_deviation_bps(p, q) > config.max_price_deviation_bps {
                    Err(PerpsError::OraclePriceDeviation)
                } else {
                    Ok(((p * 70 + q * 30) / 100) as u128)
                },
            },
        }
    }
}

/// Aggregates the primary record with an optional external feed for
/// robust pricing. A failing secondary falls back silently to the
/// primary; a diverging secondary rejects the read.
pub fn aggregate_oracle_prices(
    primary_oracle: &OraclePrice,
    pyth_feed: Option<&PythPriceAccount>,
    config: &OracleConfig,
    now: i64,
) -> (r: Result<u128, PerpsError>)
    ensures
        r == spec_aggregate_oracle_prices(
            *primary_oracle,
            (match pyth_feed {
                Some(f) => Some(*f),
                None => None,
            }),
            *config,
            now,
        ),
{
    let primary_price: u128 = match read_oracle_with_config(primary_oracle, config, now) {
        Ok(p) => p,
        Err(e) => { return Err(e); },
    };
    let feed = match pyth_feed {
        Some(f) => f,
        None => { return Ok(primary_price); },
    };
    let pyth_price: u128 = match read_pyth_price(feed, config, now) {
        Ok(q) => q,
        Err(_) => { return Ok(primary_price); },
    };
    if primary_price > DEVIATION_PRICE_MAX || pyth_price > DEVIATION_PRICE_MAX {
        return Err(PerpsError::MathOverflow);
    }
    let deviation_bps: u64 = calculate_deviation_bps(primary_price, pyth_price);
    if deviation_bps > config.max_price_deviation_bps {
        return Err(PerpsError::OraclePriceDeviation);
    }
    Ok((primary_price * 70 + pyth_price * 30) / 100)
}

/// Sum of the five stored samples.
pub open spec fn spec_fallback_sum(s: Seq<u128>) -> int {
    s[0] + s[1] + s[2] + s[3] + s[4]
}

/// How many of the five stored samples are positive.
pub open spec fn spec_fallback_count(s: Seq<u128>) -> int {
    (if s[0] > 0 {
        1int
    } else {
        0
    }) + (if s[1] > 0 {
        1int
    } else {
        0
    }) + (if s[2] > 0 {
        1int
    } else {
        0
    }) + (if s[3] > 0 {
        1int
    } else {
        0
    }) + (if s[4] > 0 {
        1int
    } else {
        0
    })
}

/// What the emergency fallback yields: the arithmetic mean of the
/// positive samples when at least three of the last five are positive,
/// a missing-feed error otherwise.
pub open spec fn spec_emergency_price_fallback(s: Seq<u128>) -> Result<u128, PerpsError> {
    if spec_fallback_sum(s) > u128::MAX {
        Err(PerpsError::MathOverflow)
    } else if spec_fallback_count(s) < 3 {
        Err(PerpsError::OracleFeedNotFound)
    } else {
        Ok((spec_fallback_sum(s) / spec_fallback_count(s)) as u128)
    }
}

/// Emergency price from the moving average of the last five valid
/// samples; requires at least three positive samples.
pub fn emergency_price_fallback(last_valid_prices: &[u128; 5]) -> (r: Result<u128, PerpsError>)
    ensures
        r == spec_emergency_price_fallback(last_valid_prices@),
{
    let s0: u128 = last_valid_prices[0];
    let s1: u128 = last_valid_prices[1];
    let s2: u128 = last_valid_prices[2];
    let s3: u128 = last_valid_prices[3];
    let s4: u128 = last_valid_prices[4];
    let sum01: u128 = match s0.checked_add(s1) {
        Some(v) => v,
        None => { return Err(PerpsError::MathOverflow); },
    };
    let sum012: u128 = match sum01.checked_add(s2) {
        Some(v) => v,
        None => { return Err(PerpsError::MathOverflow); },
    };
    let sum0123: u128 = match sum012.checked_add(s3) {
        Some(v) => v,
        None => { return Err(PerpsError::MathOverflow); },
    };
    let sum: u128 = match sum0123.checked_add(s4) {
        Some(v) => v,
        None => { return Err(PerpsError::MathOverflow); },
    };
    let mut count: u128 = 0;
    if s0 > 0 {
        count = count + 1;
    }
    if s1 > 0 {
        count = count + 1;
    }
    if s2 > 0 {
        count = count + 1;
    }
    if s3 > 0 {
        count = count + 1;
    }
    if s4 > 0 {
        count = count + 1;
    }
    if count < 3 {
        return Err(PerpsError::OracleFeedNotFound);
    }
    Ok(sum / count)
}

/// What committing a new price yields: a circuit-breaker rejection when
/// the move from a positive stored price exceeds the threshold, the
/// updated record otherwise.
pub open spec fn spec_update_oracle_err(
    oracle: OraclePrice,
    new_price_fp: u128,
    max_price_change_bps: u64,
) -> Option<PerpsError> {
    if oracle.price_fp > 0 && (oracle.price_fp > DEVIATION_PRICE_MAX || new_price_fp
        > DEVIATION_PRICE_MAX) {
        Some(PerpsError::MathOverflow)
    } else if oracle.price_fp > 0 && spec_deviation_bps(oracle.price_fp, new_price_fp)
        > max_price_change_bps {
        Some(PerpsError::CircuitBreakerTriggered)
    } else {
        None
    }
}

/// Commits a new price and timestamp unless the move from the previous
/// positive price trips the circuit breaker; a rejected update leaves the
/// record untouched.
pub fn update_oracle_price(
    oracle: &mut OraclePrice,
    new_price_fp: u128,
    max_price_change_bps: u64,
    now: i64,
) -> (r: Result<(), PerpsError>)
    ensures
        (match spec_update_oracle_err(*old(oracle), new_price_fp, max_price_change_bps) {
            Some(e) => r == Err::<(), PerpsError>(e) && *final(oracle) == *old(oracle),
            None => r == Ok::<(), PerpsError>(()) && *final(oracle) == (OraclePrice {
                price_fp: new_price_fp,
                last_updated_ts: now,
                ..*old(oracle)
            }),
        }),
{
    if oracle.price_fp > 0 {
        if oracle.price_fp > DEVIATION_PRICE_MAX || new_price_fp > DEVIATION_PRICE_MAX {
            return Err(PerpsError::MathOverflow);
        }
        let deviation_bps: u64 = calculate_deviation_bps(oracle.price_fp, new_price_fp);
        if deviation_bps > max_price_change_bps {
            return Err(PerpsError::CircuitBreakerTriggered);
        }
    }
    oracle.price_fp = new_price_fp;
    oracle.last_updated_ts = now;
    Ok(())
}

/// What a post-mutation health check yields: a bad oracle when the record
/// is older than the health window, an invalid price when the price used
/// for the mutation is zero, a deviation error when the stored price and
/// the used price diverge by more than half.
pub open spec fn spec_health_check(oracle: OraclePrice, current_price_fp: u128, now: i64) -> Result<
    (),
    PerpsError,
> {
    if now - oracle.last_updated_ts > HEALTH_CHECK_MAX_STALENESS_SECONDS {
        Err(PerpsError::BadOracle)
    } else if current_price_fp == 0 {
        Err(PerpsError::InvalidPrice)
    } else if oracle.price_fp > 0 && (oracle.price_fp > DEVIATION_PRICE_MAX || current_price_fp
        > DEVIATION_PRICE_MAX) {
        Err(PerpsError::MathOverflow)
    } else if oracle.price_fp > 0 && spec_deviation_bps(oracle.price_fp, current_price_fp)
        > MAX_HEALTH_DEVIATION_BPS {
        Err(PerpsError::OraclePriceDeviation)
    } else {
        Ok(())
    }
}

/// Sanity check after a position change: the oracle record must still be
/// reasonably fresh and the price used must not have run away from it.
pub fn health_check(oracle: &OraclePrice, current_price_fp: u128, now: i64) -> (r: Result<
    (),
    PerpsError,
>)
    ensures
        r == spec_health_check(*oracle, current_price_fp, now),
{
    let age: i128 = (now as i128) - (oracle.last_updated_ts as i128);
    if age > HEALTH_CHECK_MAX_STALENESS_SECONDS as i128 {
        return Err(PerpsError::BadOracle);
    }
    if current_price_fp == 0 {
        return Err(PerpsError::InvalidPrice);
    }
    if oracle.price_fp > 0 {
        if oracle.price_fp > DEVIATION_PRICE_MAX || current_price_fp > DEVIATION_PRICE_MAX {
            return Err(PerpsError::MathOverflow);
        }
        let deviation_bps: u64 = calculate_deviation_bps(oracle.price_fp, current_price_fp);
        if deviation_bps > MAX_HEALTH_DEVIATION_BPS {
            return Err(PerpsError::OraclePriceDeviation);
        }
    }
    Ok(())
}

} // verus!
