//! The liquidation engine and the insurance fund.
//!
//! A third party may close all or part of an undercollateralized
//! position. Profit, loss and fee on the seized size are computed as in
//! a partial close; the liquidation fee is split evenly between the
//! liquidator and the protocol. Any shortfall between the net settlement
//! and the margin owed to the position owner is covered by the insurance
//! fund rather than pushed onto other traders.

use vstd::prelude::*;
use vstd::string::StringSliceAdditionalSpecFns;
use vstd::arithmetic::div_mod::{
    lemma_div_is_ordered, lemma_div_multiples_vanish, lemma_div_pos_is_pos,
};
use vstd::arithmetic::mul::lemma_mul_inequality;
use crate::errors::PerpsError;
use crate::fixed_point::FP;
use crate::oracle::{read_oracle_fp, spec_oracle_valid, OracleConfig};
use crate::state::{Config, InsuranceFund, Market, OraclePrice, UserPosition};
use crate::trade::{lemma_share_le, sat_sub};
use crate::lifecycle::{spec_partial_close_size, spec_partial_new_margin, spec_partial_remaining};

verus! {

/// Profit and loss realized on the seized size, fixed point.
pub open spec fn spec_liq_pnl(pos: UserPosition, mark_fp: u128, pct: u8) -> int {
    let liq = spec_partial_close_size(pos, pct);
    if pos.is_long {
        liq * mark_fp - liq * pos.entry_price_fp
    } else {
        liq * pos.entry_price_fp - liq * mark_fp
    }
}

/// Liquidation fee on the seized size, fixed point: the exit notional
/// weighted by the trading fee, exactly as in a partial close.
pub open spec fn spec_liq_fee_fp(cfg: Config, pos: UserPosition, mark_fp: u128, pct: u8) -> int {
    spec_partial_close_size(pos, pct) * mark_fp * cfg.fee_bps / 10_000
}

/// The liquidator's half of the liquidation fee, fixed point.
pub open spec fn spec_liq_reward_fp(cfg: Config, pos: UserPosition, mark_fp: u128, pct: u8) -> int {
    spec_liq_fee_fp(cfg, pos, mark_fp, pct) / 2
}

/// The protocol's half of the liquidation fee, fixed point.
pub open spec fn spec_liq_protocol_fp(cfg: Config, pos: UserPosition, mark_fp: u128, pct: u8) -> int {
    spec_liq_fee_fp(cfg, pos, mark_fp, pct) - spec_liq_reward_fp(cfg, pos, mark_fp, pct)
}

/// Exit notional adjusted by profit and loss, floored at zero, fixed
/// point.
pub open spec fn spec_liq_settlement_base(pos: UserPosition, mark_fp: u128, pct: u8) -> int {
    let raw = spec_partial_close_size(pos, pct) * mark_fp + spec_liq_pnl(pos, mark_fp, pct);
    if raw >= 0 {
        raw
    } else {
        0
    }
}

/// Net settlement after the liquidation fee, floored at zero, fixed
/// point.
pub open spec fn spec_liq_net_settlement(cfg: Config, pos: UserPosition, mark_fp: u128, pct: u8) -> int {
    let raw = spec_liq_settlement_base(pos, mark_fp, pct) - spec_liq_fee_fp(cfg, pos, mark_fp, pct);
    if raw >= 0 {
        raw
    } else {
        0
    }
}

/// Shortfall between the margin owed to the position owner and the net
/// settlement, floored at zero, fixed point. This is the bad debt the
/// insurance fund covers.
pub open spec fn spec_liq_deficit_fp(cfg: Config, pos: UserPosition, mark_fp: u128, pct: u8) -> int {
    let raw = pos.margin_deposited * FP - spec_liq_net_settlement(cfg, pos, mark_fp, pct);
    if raw >= 0 {
        raw
    } else {
        0
    }
}

/// Insurance-fund contribution in raw units.
pub open spec fn spec_liq_contribution(cfg: Config, pos: UserPosition, mark_fp: u128, pct: u8) -> int {
    spec_liq_deficit_fp(cfg, pos, mark_fp, pct) / (FP as int)
}

/// Liquidator reward in raw units.
pub open spec fn spec_liq_reward_amt(cfg: Config, pos: UserPosition, mark_fp: u128, pct: u8) -> int {
    spec_liq_reward_fp(cfg, pos, mark_fp, pct) / (FP as int)
}

/// Protocol fee in raw units.
pub open spec fn spec_liq_protocol_amt(cfg: Config, pos: UserPosition, mark_fp: u128, pct: u8) -> int {
    spec_liq_protocol_fp(cfg, pos, mark_fp, pct) / (FP as int)
}

/// Every quantity the liquidation settlement computes fits in the
/// machine width and the transfer amounts fit in raw units.
pub open spec fn spec_liq_fits(cfg: Config, pos: UserPosition, mark_fp: u128, pct: u8) -> bool {
    let liq = spec_partial_close_size(pos, pct);
    &&& liq * mark_fp <= i128::MAX
    &&& liq * pos.entry_price_fp <= i128::MAX
    &&& liq * mark_fp * 10_000 <= u128::MAX
    &&& liq * mark_fp + spec_liq_pnl(pos, mark_fp, pct) <= i128::MAX
    &&& spec_liq_reward_amt(cfg, pos, mark_fp, pct) <= u64::MAX
    &&& spec_liq_protocol_amt(cfg, pos, mark_fp, pct) <= u64::MAX
}

/// Everything the ledger needs after an accepted liquidation: the
/// liquidator's reward and the protocol fee leave the custody vault, and
/// the insurance-fund contribution records the covered bad debt.
#[derive(Clone, Copy, Debug, PartialEq, Eq)]
pub struct LiquidationExecuted {
    /// Base units seized.
    pub liquidation_size: u64,
    /// Price at which the position was liquidated, fixed point.
    pub liquidation_price_fp: u128,
    /// Reward to transfer from the vault to the liquidator, raw units.
    pub liquidator_reward: u64,
    /// Fee to transfer from the vault to the fee destination, raw units.
    pub protocol_fee: u64,
    /// Bad debt covered by the insurance fund, raw units.
    pub insurance_fund_contribution: u64,
}

/// The first reason a liquidation is rejected, if any: an out-of-range
/// percentage, pauses, a bad oracle, a missing position, arithmetic
/// leaving the machine width, or a position that is simply not
/// liquidatable at the mark price.
pub open spec fn spec_liquidate_err(
    cfg: Config,
    market: Market,
    pos: UserPosition,
    oracle: OraclePrice,
    now: i64,
    pct: u8,
) -> Option<PerpsError> {
    let mark = oracle.price_fp;
    if !(1 <= pct <= 100) {
        Some(PerpsError::InvalidMarketParameters)
    } else if market.is_paused {
        Some(PerpsError::MarketPaused)
    } else if !spec_oracle_valid(oracle, OracleConfig::spec_default(), now) {
        Some(PerpsError::BadOracle)
    } else if pos.base_size == 0 {
        Some(PerpsError::PositionNotFound)
    } else if !pos.valuation_fits(mark) {
        Some(PerpsError::MathOverflow)
    } else if !pos.spec_is_liquidatable(mark, market.maintenance_margin_bps) {
        Some(PerpsError::PositionNotLiquidatable)
    } else if !spec_liq_fits(cfg, pos, mark, pct) {
        Some(PerpsError::MathOverflow)
    } else {
        None
    }
}

/// Liquidates up to the given percentage of an undercollateralized
/// position at the validated price. The liquidation fee is split evenly
/// between the liquidator and the protocol; any shortfall of the net
/// settlement against the owed margin is charged to the insurance fund,
/// never to the trader. A full liquidation zeroes the position; a
/// partial one scales the margin by the remaining-size ratio.
pub fn enhanced_liquidate(
    cfg: &Config,
    market: &mut Market,
    pos: &mut UserPosition,
    fund: &mut InsuranceFund,
    oracle: &OraclePrice,
    now: i64,
    max_liquidation_percentage: u8,
) -> (r: Result<LiquidationExecuted, PerpsError>)
    requires
        cfg.wf(),
        old(market).wf(),
        old(pos).wf(),
    ensures
        final(pos).wf(),
        final(fund).total_claims == old(fund).total_claims,
        final(fund).total_deposits >= old(fund).total_deposits,
        (match spec_liquidate_err(
            *cfg,
            *old(market),
            *old(pos),
            *oracle,
            now,
            max_liquidation_percentage,
        ) {
            Some(e) => r == Err::<LiquidationExecuted, PerpsError>(e) && *final(market) == *old(
                market,
            ) && *final(pos) == *old(pos) && *final(fund) == *old(fund),
            None => {
                let mark = oracle.price_fp;
                let pct = max_liquidation_percentage;
                let liq = spec_partial_close_size(*old(pos), pct);
                let contribution = spec_liq_contribution(*cfg, *old(pos), mark, pct);
                &&& r == Ok::<LiquidationExecuted, PerpsError>(LiquidationExecuted {
                    liquidation_size: liq as u64,
                    liquidation_price_fp: mark,
                    liquidator_reward: spec_liq_reward_amt(*cfg, *old(pos), mark, pct) as u64,
                    protocol_fee: spec_liq_protocol_amt(*cfg, *old(pos), mark, pct) as u64,
                    insurance_fund_contribution: contribution as u64,
                })
                &&& (pct == 100 ==> *final(pos) == (UserPosition {
                    is_long: false,
                    base_size: 0,
                    entry_price_fp: 0,
                    margin_deposited: 0,
                    ..*old(pos)
                }))
                &&& (pct < 100 ==> *final(pos) == (UserPosition {
                    base_size: (if old(pos).is_long {
                        spec_partial_remaining(*old(pos), pct)
                    } else {
                        -spec_partial_remaining(*old(pos), pct)
                    }) as i64,
                    margin_deposited: spec_partial_new_margin(*old(pos), pct) as u64,
                    ..*old(pos)
                }))
                &&& *final(market) == (Market {
                    total_long_size: if old(pos).is_long {
                        sat_sub(old(market).total_long_size as int, liq) as u64
                    } else {
                        old(market).total_long_size
                    },
                    total_short_size: if old(pos).is_long {
                        old(market).total_short_size
                    } else {
                        sat_sub(old(market).total_short_size as int, liq) as u64
                    },
                    ..*old(market)
                })
                &&& *final(fund) == (InsuranceFund {
                    total_deposits: if old(fund).total_deposits + contribution > u64::MAX {
                        u64::MAX
                    } else {
                        (old(fund).total_deposits + contribution) as u64
                    },
                    ..*old(fund)
                })
            },
        }),
{
    if max_liquidation_percentage == 0 || max_liquidation_percentage > 100 {
        return Err(PerpsError::InvalidMarketParameters);
    }
    if market.is_paused {
        return Err(PerpsError::MarketPaused);
    }
    let mark_fp: u128 = match read_oracle_fp(oracle, now) {
        Ok(p) => p,
        Err(e) => { return Err(e); },
    };
    if pos.base_size == 0 {
        return Err(PerpsError::PositionNotFound);
    }
    if !pos.valuation_in_range(mark_fp) {
        return Err(PerpsError::MathOverflow);
    }
    if !pos.is_liquidatable(mark_fp, market.maintenance_margin_bps) {
        return Err(PerpsError::PositionNotLiquidatable);
    }
    let was_long: bool = pos.is_long;
    let abs: u64 = pos.abs_base_units();
    proof {
        lemma_share_le(abs as int, max_liquidation_percentage as int, 100);
    }
    let liquidation_size: u64 = (((abs as u128) * (max_liquidation_percentage as u128)) / 100)
        as u64;
    let exit_notional: u128 = match (liquidation_size as u128).checked_mul(mark_fp) {
        Some(x) => x,
        None => { return Err(PerpsError::MathOverflow); },
    };
    let entry_notional: u128 = match (liquidation_size as u128).checked_mul(pos.entry_price_fp) {
        Some(x) => x,
        None => { return Err(PerpsError::MathOverflow); },
    };
    if exit_notional > i128::MAX as u128 || entry_notional > i128::MAX as u128 {
        return Err(PerpsError::MathOverflow);
    }
    if exit_notional.checked_mul(10_000).is_none() {
        return Err(PerpsError::MathOverflow);
    }
    proof {
        lemma_mul_inequality(cfg.fee_bps as int, 10_000, exit_notional as int);
        assert(exit_notional * (cfg.fee_bps as int) == (cfg.fee_bps as int) * exit_notional)
            by (nonlinear_arith);
        assert(exit_notional * 10_000 == 10_000 * exit_notional) by (nonlinear_arith);
        lemma_share_le(exit_notional as int, cfg.fee_bps as int, 10_000);
        assert(spec_partial_close_size(*pos, max_liquidation_percentage) * mark_fp * cfg.fee_bps
            == (spec_partial_close_size(*pos, max_liquidation_percentage) * mark_fp) * (
        cfg.fee_bps as int)) by (nonlinear_arith);
    }
    let liquidation_fee: u128 = (exit_notional * (cfg.fee_bps as u128)) / 10_000;
    let liquidator_reward_fp: u128 = liquidation_fee / 2;
    let protocol_fee_fp: u128 = liquidation_fee - liquidator_reward_fp;
    let pnl_fp: i128 = if pos.is_long {
        (exit_notional as i128) - (entry_notional as i128)
    } else {
        (entry_notional as i128) - (exit_notional as i128)
    };
    let settlement_base_signed: i128 = match (exit_notional as i128).checked_add(pnl_fp) {
        Some(v) => v,
        None => { return Err(PerpsError::MathOverflow); },
    };
    let settlement_base: u128 = if settlement_base_signed >= 0 {
        settlement_base_signed as u128
    } else {
        0
    };
    let net_settlement: u128 = settlement_base.saturating_sub(liquidation_fee);
    let margin_owed_fp: u128 = (pos.margin_deposited as u128) * FP;
    let liquidation_deficit_fp: u128 = margin_owed_fp.saturating_sub(net_settlement);
    proof {
        lemma_div_is_ordered(
            liquidation_deficit_fp as int,
            pos.margin_deposited * FP,
            FP as int,
        );
        lemma_div_multiples_vanish(pos.margin_deposited as int, FP as int);
        lemma_div_pos_is_pos(liquidation_deficit_fp as int, FP as int);
    }
    let contribution: u64 = (liquidation_deficit_fp / FP) as u64;
    let reward_amt_wide: u128 = liquidator_reward_fp / FP;
    if reward_amt_wide > u64::MAX as u128 {
        return Err(PerpsError::MathOverflow);
    }
    let protocol_amt_wide: u128 = protocol_fee_fp / FP;
    if protocol_amt_wide > u64::MAX as u128 {
        return Err(PerpsError::MathOverflow);
    }
    proof {
        lemma_div_pos_is_pos(liquidator_reward_fp as int, FP as int);
        lemma_div_pos_is_pos(protocol_fee_fp as int, FP as int);
    }
    fund.total_deposits = fund.total_deposits.saturating_add(contribution);
    if max_liquidation_percentage == 100 {
        proof {
            lemma_div_multiples_vanish(abs as int, 100);
            assert(abs * 100 == 100 * (abs as int)) by (nonlinear_arith);
        }
        pos.is_long = false;
        pos.base_size = 0;
        pos.entry_price_fp = 0;
        pos.margin_deposited = 0;
    } else {
        let remaining_size: u64 = abs - liquidation_size;
        proof {
            lemma_mul_inequality(remaining_size as int, abs as int, FP as int);
            assert(remaining_size * FP == (remaining_size as int) * (FP as int))
                by (nonlinear_arith);
            assert(abs * FP == (abs as int) * (FP as int)) by (nonlinear_arith);
            lemma_div_is_ordered(remaining_size * FP, abs * FP, abs as int);
            assert((abs as int) * (FP as int) == (FP as int) * (abs as int)) by (nonlinear_arith);
            lemma_div_multiples_vanish(FP as int, abs as int);
            lemma_div_pos_is_pos(remaining_size * FP, abs as int);
            // A seizure below one hundred percent leaves a rest.
            vstd::arithmetic::div_mod::lemma_fundamental_div_mod(abs * max_liquidation_percentage, 100);
            vstd::arithmetic::div_mod::lemma_mod_division_less_than_divisor(
                abs * max_liquidation_percentage,
                100,
            );
            lemma_mul_inequality(max_liquidation_percentage as int, 99, abs as int);
            assert(abs * max_liquidation_percentage == (max_liquidation_percentage as int) * (
            abs as int)) by (nonlinear_arith);
            assert(abs * 99 == 99 * (abs as int)) by (nonlinear_arith);
        }
        let remaining_ratio: u128 = ((remaining_size as u128) * FP) / (abs as u128);
        proof {
            lemma_share_le(pos.margin_deposited as int, remaining_ratio as int, FP as int);
        }
        let new_margin: u64 = (((pos.margin_deposited as u128) * remaining_ratio) / FP) as u64;
        pos.base_size = if pos.is_long {
            remaining_size as i64
        } else {
            (-(remaining_size as i128)) as i64
        };
        pos.margin_deposited = new_margin;
    }
    if was_long {
        market.total_long_size = market.total_long_size.saturating_sub(liquidation_size);
    } else {
        market.total_short_size = market.total_short_size.saturating_sub(liquidation_size);
    }
    Ok(LiquidationExecuted {
        liquidation_size,
        liquidation_price_fp: mark_fp,
        liquidator_reward: reward_amt_wide as u64,
        protocol_fee: protocol_amt_wide as u64,
        insurance_fund_contribution: contribution,
    })
}

/// Full liquidation: the whole position is seized.
pub fn liquidate(
    cfg: &Config,
    market: &mut Market,
    pos: &mut UserPosition,
    fund: &mut InsuranceFund,
    oracle: &OraclePrice,
    now: i64,
) -> (r: Result<LiquidationExecuted, PerpsError>)
    requires
        cfg.wf(),
        old(market).wf(),
        old(pos).wf(),
    ensures
        final(pos).wf(),
        (match spec_liquidate_err(*cfg, *old(market), *old(pos), *oracle, now, 100) {
            Some(e) => r == Err::<LiquidationExecuted, PerpsError>(e) && *final(market) == *old(
                market,
            ) && *final(pos) == *old(pos) && *final(fund) == *old(fund),
            None => {
                let mark = oracle.price_fp;
                let liq = spec_partial_close_size(*old(pos), 100);
                &&& r == Ok::<LiquidationExecuted, PerpsError>(LiquidationExecuted {
                    liquidation_size: liq as u64,
                    liquidation_price_fp: mark,
                    liquidator_reward: spec_liq_reward_amt(*cfg, *old(pos), mark, 100) as u64,
                    protocol_fee: spec_liq_protocol_amt(*cfg, *old(pos), mark, 100) as u64,
                    insurance_fund_contribution: spec_liq_contribution(
                        *cfg,
                        *old(pos),
                        mark,
                        100,
                    ) as u64,
                })
                &&& *final(pos) == (UserPosition {
                    is_long: false,
                    base_size: 0,
                    entry_price_fp: 0,
                    margin_deposited: 0,
                    ..*old(pos)
                })
            },
        }),
{
    enhanced_liquidate(cfg, market, pos, fund, oracle, now, 100)
}

/// A fresh insurance fund with nothing deposited and nothing claimed.
pub fn initialize_insurance_fund() -> (f: InsuranceFund)
    ensures
        f == (InsuranceFund { total_deposits: 0, total_claims: 0 }),
{
    InsuranceFund { total_deposits: 0, total_claims: 0 }
}

/// Credits a liquidation deficit to the fund, saturating at the maximum:
/// the fund absorbs losses, it does not pay the liquidator.
pub fn contribute_to_insurance_fund(fund: &mut InsuranceFund, amount: u64)
    ensures
        final(fund).total_claims == old(fund).total_claims,
        final(fund).total_deposits == if old(fund).total_deposits + amount > u64::MAX {
            u64::MAX as int
        } else {
            old(fund).total_deposits + amount
        },
{
    fund.total_deposits = fund.total_deposits.saturating_add(amount);
}

/// The first reason a deposit is rejected, if any.
pub open spec fn spec_deposit_err(fund: InsuranceFund, amount: u64) -> Option<PerpsError> {
    if amount == 0 {
        Some(PerpsError::InvalidMarketParameters)
    } else if fund.total_deposits + amount > u64::MAX {
        Some(PerpsError::MathOverflow)
    } else {
        None
    }
}

/// Deposits into the insurance fund; the caller moves the tokens into
/// the fund's vault atomically with this transition.
pub fn deposit_insurance_fund(fund: &mut InsuranceFund, amount: u64) -> (r: Result<(), PerpsError>)
    ensures
        (match spec_deposit_err(*old(fund), amount) {
            Some(e) => r == Err::<(), PerpsError>(e) && *final(fund) == *old(fund),
            None => r == Ok::<(), PerpsError>(()) && *final(fund) == (InsuranceFund {
                total_deposits: (old(fund).total_deposits + amount) as u64,
                ..*old(fund)
            }),
        }),
        final(fund).total_deposits >= old(fund).total_deposits,
        final(fund).total_claims == old(fund).total_claims,
{
    if amount == 0 {
        return Err(PerpsError::InvalidMarketParameters);
    }
    match fund.total_deposits.checked_add(amount) {
        Some(total) => {
            fund.total_deposits = total;
            Ok(())
        },
        None => Err(PerpsError::MathOverflow),
    }
}

/// The first reason a withdrawal is rejected, if any: a zero amount, an
/// overlong audit reason, more than the fund holds, or a claims total
/// leaving the machine width.
pub open spec fn spec_withdraw_err(fund: InsuranceFund, amount: u64, reason: Seq<u8>) -> Option<
    PerpsError,
> {
    if amount == 0 {
        Some(PerpsError::InvalidMarketParameters)
    } else if reason.len() > 200 {
        Some(PerpsError::InvalidMarketParameters)
    } else if amount > fund.total_deposits {
        Some(PerpsError::InsufficientBalance)
    } else if fund.total_claims + amount > u64::MAX {
        Some(PerpsError::MathOverflow)
    } else {
        None
    }
}

/// Admin withdrawal for covering bad debt, with an audit reason of at
/// most two hundred bytes; the caller moves the tokens out of the
/// fund's vault atomically with this transition and checks the signer.
pub fn withdraw_insurance_fund(fund: &mut InsuranceFund, amount: u64, reason: &str) -> (r: Result<
    (),
    PerpsError,
>)
    ensures
        (match spec_withdraw_err(*old(fund), amount, reason.spec_bytes()) {
            Some(e) => r == Err::<(), PerpsError>(e) && *final(fund) == *old(fund),
            None => r == Ok::<(), PerpsError>(()) && *final(fund) == (InsuranceFund {
                total_claims: (old(fund).total_claims + amount) as u64,
                ..*old(fund)
            }),
        }),
        final(fund).total_deposits == old(fund).total_deposits,
        final(fund).total_claims >= old(fund).total_claims,
{
    if amount == 0 {
        return Err(PerpsError::InvalidMarketParameters);
    }
    if reason.as_bytes().len() > 200 {
        return Err(PerpsError::InvalidMarketParameters);
    }
    if amount > fund.total_deposits {
        return Err(PerpsError::InsufficientBalance);
    }
    match fund.total_claims.checked_add(amount) {
        Some(total) => {
            fund.total_claims = total;
            Ok(())
        },
        None => Err(PerpsError::MathOverflow),
    }
}

} // verus!
