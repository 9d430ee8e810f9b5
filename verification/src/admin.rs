//! Administrative configuration: protocol setup, pausing, risk
//! parameters and market creation.
//!
//! Who may call these is the surrounding ledger's concern (admin-only
//! signatures); the engine validates the parameter values themselves.

use vstd::prelude::*;
use crate::errors::PerpsError;
use crate::state::{Config, Market};

verus! {

/// The first reason a protocol configuration is rejected, if any: fees
/// above ten percent, liquidation fees above twenty, creator rewards
/// above fifty.
pub open spec fn spec_initialize_config_err(fee_bps: u16, liq_fee_bps: u16, creator_reward_bps: u16) -> Option<
    PerpsError,
> {
    if fee_bps > 1000 {
        Some(PerpsError::InvalidProtocolConfig)
    } else if liq_fee_bps > 2000 {
        Some(PerpsError::InvalidProtocolConfig)
    } else if creator_reward_bps > 5000 {
        Some(PerpsError::InvalidProtocolConfig)
    } else {
        None
    }
}

/// Validates the fee parameters and produces the initial protocol
/// configuration, unpaused and with safe risk defaults.
pub fn initialize_config(fee_bps: u16, liq_fee_bps: u16, creator_reward_bps: u16) -> (r: Result<
    Config,
    PerpsError,
>)
    ensures
        (match spec_initialize_config_err(fee_bps, liq_fee_bps, creator_reward_bps) {
            Some(e) => r == Err::<Config, PerpsError>(e),
            None => r == Ok::<Config, PerpsError>(Config {
                fee_bps,
                liq_fee_bps,
                creator_reward_bps,
                paused: false,
                max_positions_per_user: 50,
                max_total_positions: 10_000,
                emergency_pause_threshold: 1_000_000,
                circuit_breaker_threshold_bps: 1000,
            }),
        }),
        (r matches Ok(c) ==> c.wf()),
{
    if fee_bps > 1000 {
        return Err(PerpsError::InvalidProtocolConfig);
    }
    if liq_fee_bps > 2000 {
        return Err(PerpsError::InvalidProtocolConfig);
    }
    if creator_reward_bps > 5000 {
        return Err(PerpsError::InvalidProtocolConfig);
    }
    Ok(Config {
        fee_bps,
        liq_fee_bps,
        creator_reward_bps,
        paused: false,
        max_positions_per_user: 50,
        max_total_positions: 10_000,
        emergency_pause_threshold: 1_000_000,
        circuit_breaker_threshold_bps: 1000,
    })
}

/// Sets or clears the protocol-wide emergency pause flag.
pub fn pause(cfg: &mut Config, paused: bool)
    ensures
        *final(cfg) == (Config { paused, ..*old(cfg) }),
{
    cfg.paused = paused;
}

/// The first reason a risk-parameter update is rejected, if any: a
/// per-user position cap outside one to two hundred, or a circuit
/// breaker threshold outside one to fifty percent.
pub open spec fn spec_update_risk_err(
    max_positions_per_user: Option<u32>,
    circuit_breaker_threshold_bps: Option<u64>,
) -> Option<PerpsError> {
    if (match max_positions_per_user {
        Some(max_pos) => !(0 < max_pos <= 200),
        None => false,
    }) {
        Some(PerpsError::InvalidProtocolConfig)
    } else if (match circuit_breaker_threshold_bps {
        Some(threshold) => !(100 <= threshold <= 5000),
        None => false,
    }) {
        Some(PerpsError::InvalidProtocolConfig)
    } else {
        None
    }
}

/// Updates the optional risk parameters; the whole update is rejected,
/// and nothing changes, if any given value is out of bounds.
pub fn update_risk_parameters(
    cfg: &mut Config,
    max_positions_per_user: Option<u32>,
    circuit_breaker_threshold_bps: Option<u64>,
) -> (r: Result<(), PerpsError>)
    ensures
        (match spec_update_risk_err(max_positions_per_user, circuit_breaker_threshold_bps) {
            Some(e) => r == Err::<(), PerpsError>(e) && *final(cfg) == *old(cfg),
            None => r == Ok::<(), PerpsError>(()) && *final(cfg) == (Config {
                max_positions_per_user: (match max_positions_per_user {
                    Some(max_pos) => max_pos,
                    None => old(cfg).max_positions_per_user,
                }),
                circuit_breaker_threshold_bps: (match circuit_breaker_threshold_bps {
                    Some(threshold) => threshold,
                    None => old(cfg).circuit_breaker_threshold_bps,
                }),
                ..*old(cfg)
            }),
        }),
{
    match max_positions_per_user {
        Some(max_pos) => {
            if max_pos == 0 || max_pos > 200 {
                return Err(PerpsError::InvalidProtocolConfig);
            }
        },
        None => {},
    }
    match circuit_breaker_threshold_bps {
        Some(threshold) => {
            if threshold < 100 || threshold > 5000 {
                return Err(PerpsError::InvalidProtocolConfig);
            }
        },
        None => {},
    }
    match max_positions_per_user {
        Some(max_pos) => {
            cfg.max_positions_per_user = max_pos;
        },
        None => {},
    }
    match circuit_breaker_threshold_bps {
        Some(threshold) => {
            cfg.circuit_breaker_threshold_bps = threshold;
        },
        None => {},
    }
    Ok(())
}

/// Raises or lowers the per-market position size cap; the cap must be
/// positive and stay representable as a signed size.
pub fn edit_max_position(market: &mut Market, new_max_base: u64) -> (r: Result<(), PerpsError>)
    requires
        old(market).wf(),
    ensures
        final(market).wf(),
        new_max_base == 0 || new_max_base > i64::MAX ==> r == Err::<(), PerpsError>(
            PerpsError::InvalidMarketParameters,
        ) && *final(market) == *old(market),
        0 < new_max_base <= i64::MAX ==> r == Ok::<(), PerpsError>(()) && *final(market) == (
        Market { max_position_base: new_max_base, ..*old(market) }),
{
    if new_max_base == 0 || new_max_base > i64::MAX as u64 {
        return Err(PerpsError::InvalidMarketParameters);
    }
    market.max_position_base = new_max_base;
    Ok(())
}

/// The first reason a market creation is rejected, if any: a
/// maintenance requirement above one hundred percent, a leverage cap of
/// zero, or a position cap that is zero or not representable as a
/// signed size.
pub open spec fn spec_create_market_err(
    max_position_base: u64,
    maintenance_margin_bps: u16,
    taker_leverage_cap_x: u16,
) -> Option<PerpsError> {
    if maintenance_margin_bps > 10_000 {
        Some(PerpsError::InvalidMarketParameters)
    } else if taker_leverage_cap_x == 0 {
        Some(PerpsError::InvalidMarketParameters)
    } else if max_position_base == 0 || max_position_base > i64::MAX {
        Some(PerpsError::InvalidMarketParameters)
    } else {
        None
    }
}

/// Validates the risk parameters and produces a fresh market record
/// with empty aggregates and funding state.
pub fn create_market(
    symbol: [u8; 12],
    base_decimals: u8,
    skew_k_bps: u32,
    max_position_base: u64,
    maintenance_margin_bps: u16,
    taker_leverage_cap_x: u16,
    amm_base_reserve_fp: u128,
    amm_quote_reserve_fp: u128,
    now: i64,
) -> (r: Result<Market, PerpsError>)
    ensures
        (match spec_create_market_err(max_position_base, maintenance_margin_bps, taker_leverage_cap_x) {
            Some(e) => r == Err::<Market, PerpsError>(e),
            None => r == Ok::<Market, PerpsError>(Market {
                symbol,
                base_decimals,
                amm_base_reserve_fp,
                amm_quote_reserve_fp,
                funding_rate_fp: 0,
                last_funding_ts: now,
                cumulative_funding_long_fp: 0,
                cumulative_funding_short_fp: 0,
                skew_k_bps,
                max_position_base,
                maintenance_margin_bps,
                taker_leverage_cap_x,
                total_long_size: 0,
                total_short_size: 0,
                total_volume: 0,
                is_paused: false,
                max_funding_rate_fp: 0,
                max_skew_ratio: 0,
            }),
        }),
        (r matches Ok(m) ==> m.wf()),
{
    if maintenance_margin_bps > 10_000 {
        return Err(PerpsError::InvalidMarketParameters);
    }
    if taker_leverage_cap_x == 0 {
        return Err(PerpsError::InvalidMarketParameters);
    }
    if max_position_base == 0 || max_position_base > i64::MAX as u64 {
        return Err(PerpsError::InvalidMarketParameters);
    }
    Ok(Market {
        symbol,
        base_decimals,
        amm_base_reserve_fp,
        amm_quote_reserve_fp,
        funding_rate_fp: 0,
        last_funding_ts: now,
        cumulative_funding_long_fp: 0,
        cumulative_funding_short_fp: 0,
        skew_k_bps,
        max_position_base,
        maintenance_margin_bps,
        taker_leverage_cap_x,
        total_long_size: 0,
        total_short_size: 0,
        total_volume: 0,
        is_paused: false,
        max_funding_rate_fp: 0,
        max_skew_ratio: 0,
    })
}

} // verus!
