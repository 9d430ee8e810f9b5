//! Advanced position management: partial close, margin changes, and the
//! stop-loss state machine.
//!
//! A partial close settles profit, loss and fee on the closed fraction
//! only and scales the remaining margin by the remaining-size ratio, so
//! leverage is preserved. No operation here may leave the position
//! under-margined relative to the price snapshot that authorized it.

use vstd::prelude::*;
use vstd::arithmetic::div_mod::{
    lemma_div_is_ordered, lemma_div_multiples_vanish, lemma_div_pos_is_pos,
    lemma_fundamental_div_mod, lemma_mod_division_less_than_divisor,
};
use vstd::arithmetic::mul::lemma_mul_inequality;
use crate::errors::PerpsError;
use crate::fixed_point::FP;
use crate::oracle::{read_oracle_fp, spec_oracle_valid, OracleConfig};
use crate::state::{Config, Market, OraclePrice, StopLossOrder, UserPosition};
use crate::trade::{
    compute_close_amounts, lemma_share_le, sat_sub, spec_close_fee_amt, spec_close_fits,
    spec_close_settle_amt, CloseAmounts,
};

verus! {

/// Base units closed when the given percentage of the position is closed.
pub open spec fn spec_partial_close_size(pos: UserPosition, pct: u8) -> int {
    pos.abs_base() * pct / 100
}

/// Base units left open after the partial close.
pub open spec fn spec_partial_remaining(pos: UserPosition, pct: u8) -> int {
    pos.abs_base() - spec_partial_close_size(pos, pct)
}

/// Profit and loss realized on the closed fraction, fixed point.
pub open spec fn spec_partial_pnl(pos: UserPosition, mark_fp: u128, pct: u8) -> int {
    let close = spec_partial_close_size(pos, pct);
    if pos.is_long {
        close * mark_fp - close * pos.entry_price_fp
    } else {
        close * pos.entry_price_fp - close * mark_fp
    }
}

/// Fee charged on the closed fraction, fixed point.
pub open spec fn spec_partial_fee_fp(cfg: Config, pos: UserPosition, mark_fp: u128, pct: u8) -> int {
    spec_partial_close_size(pos, pct) * mark_fp * cfg.fee_bps / 10_000
}

/// Settlement paid out on the closed fraction, fixed point: the exit
/// notional of the closed size, less the fee, adjusted by profit and
/// loss, floored at zero.
pub open spec fn spec_partial_settle_fp(cfg: Config, pos: UserPosition, mark_fp: u128, pct: u8) -> int {
    let raw = spec_partial_close_size(pos, pct) * mark_fp - spec_partial_fee_fp(
        cfg,
        pos,
        mark_fp,
        pct,
    ) + spec_partial_pnl(pos, mark_fp, pct);
    if raw >= 0 {
        raw
    } else {
        0
    }
}

/// Settlement on the closed fraction in raw units.
pub open spec fn spec_partial_settle_amt(cfg: Config, pos: UserPosition, mark_fp: u128, pct: u8) -> int {
    spec_partial_settle_fp(cfg, pos, mark_fp, pct) / (FP as int)
}

/// Fee on the closed fraction in raw units.
pub open spec fn spec_partial_fee_amt(cfg: Config, pos: UserPosition, mark_fp: u128, pct: u8) -> int {
    spec_partial_fee_fp(cfg, pos, mark_fp, pct) / (FP as int)
}

/// Margin left with the position after the partial close: scaled by the
/// remaining-size ratio in fixed point, so leverage is preserved.
pub open spec fn spec_partial_new_margin(pos: UserPosition, pct: u8) -> int {
    let ratio = spec_partial_remaining(pos, pct) * FP / pos.abs_base();
    pos.margin_deposited * ratio / (FP as int)
}

/// Signed size left with the position after the partial close.
pub open spec fn spec_partial_new_base(pos: UserPosition, pct: u8) -> int {
    if pos.is_long {
        spec_partial_remaining(pos, pct)
    } else {
        -spec_partial_remaining(pos, pct)
    }
}

/// The position as it stands after the partial close: shrunk size and
/// proportional margin, entry price and funding debt unchanged.
pub open spec fn spec_partial_candidate(pos: UserPosition, pct: u8, now: i64) -> UserPosition {
    UserPosition {
        base_size: spec_partial_new_base(pos, pct) as i64,
        margin_deposited: spec_partial_new_margin(pos, pct) as u64,
        last_updated_ts: now,
        ..pos
    }
}

/// Every quantity the partial-close settlement computes fits in the
/// machine width and the transfer amounts fit in raw units.
pub open spec fn spec_partial_fits(cfg: Config, pos: UserPosition, mark_fp: u128, pct: u8) -> bool {
    let close = spec_partial_close_size(pos, pct);
    &&& close * mark_fp <= i128::MAX
    &&& close * pos.entry_price_fp <= i128::MAX
    &&& close * mark_fp * 10_000 <= u128::MAX
    &&& close * mark_fp - spec_partial_fee_fp(cfg, pos, mark_fp, pct) + spec_partial_pnl(
        pos,
        mark_fp,
        pct,
    ) <= i128::MAX
    &&& spec_partial_settle_amt(cfg, pos, mark_fp, pct) <= u64::MAX
    &&& spec_partial_fee_amt(cfg, pos, mark_fp, pct) <= u64::MAX
    &&& i128::MIN <= pos.realized_pnl_fp + spec_partial_pnl(pos, mark_fp, pct) <= i128::MAX
    &&& pos.total_fees_paid + spec_partial_fee_amt(cfg, pos, mark_fp, pct) <= u64::MAX
}

/// Amounts of one partial-close settlement.
pub struct PartialAmounts {
    /// Base units closed.
    pub close_size: u64,
    /// Base units left open.
    pub remaining_size: u64,
    /// Profit and loss realized on the closed fraction, fixed point.
    pub pnl_fp: i128,
    /// Settlement to the trader, raw units.
    pub settlement_amount: u64,
    /// Fee to the fee destination, raw units.
    pub fee_paid: u64,
    /// Margin left with the position, raw units.
    pub new_margin: u64,
}

/// Computes the partial-close settlement for a close of one to
/// ninety-nine percent, or nothing where some quantity would leave the
/// machine width.
pub fn compute_partial_amounts(cfg: &Config, pos: &UserPosition, mark_fp: u128, pct: u8) -> (r:
    Option<PartialAmounts>)
    requires
        cfg.wf(),
        pos.wf(),
        pos.base_size != 0,
        1 <= pct <= 99,
    ensures
        r is Some <==> spec_partial_fits(*cfg, *pos, mark_fp, pct),
        (r matches Some(a) ==> {
            &&& a.close_size == spec_partial_close_size(*pos, pct)
            &&& a.close_size < pos.abs_base()
            &&& a.remaining_size == spec_partial_remaining(*pos, pct)
            &&& a.pnl_fp == spec_partial_pnl(*pos, mark_fp, pct)
            &&& a.settlement_amount == spec_partial_settle_amt(*cfg, *pos, mark_fp, pct)
            &&& a.fee_paid == spec_partial_fee_amt(*cfg, *pos, mark_fp, pct)
            &&& a.new_margin == spec_partial_new_margin(*pos, pct)
            &&& a.new_margin <= pos.margin_deposited
        }),
{
    let abs: u64 = pos.abs_base_units();
    proof {
        lemma_share_le(abs as int, pct as int, 100);
        // The closed fraction of at most ninety-nine percent leaves a rest.
        lemma_fundamental_div_mod(abs * pct, 100);
        lemma_mod_division_less_than_divisor(abs * pct, 100);
        lemma_mul_inequality(pct as int, 99, abs as int);
        assert(abs * pct == pct * abs) by (nonlinear_arith);
        assert(abs * 99 == 99 * abs) by (nonlinear_arith);
    }
    let close_size: u64 = (((abs as u128) * (pct as u128)) / 100) as u64;
    let remaining_size: u64 = abs - close_size;
    let exit_notional: u128 = match (close_size as u128).checked_mul(mark_fp) {
        Some(x) => x,
        None => { return None; },
    };
    let entry_notional: u128 = match (close_size as u128).checked_mul(pos.entry_price_fp) {
        Some(x) => x,
        None => { return None; },
    };
    if exit_notional > i128::MAX as u128 || entry_notional > i128::MAX as u128 {
        return None;
    }
    if exit_notional.checked_mul(10_000).is_none() {
        return None;
    }
    proof {
        lemma_mul_inequality(cfg.fee_bps as int, 10_000, exit_notional as int);
        assert(exit_notional * (cfg.fee_bps as int) == (cfg.fee_bps as int) * exit_notional)
            by (nonlinear_arith);
        assert(exit_notional * 10_000 == 10_000 * exit_notional) by (nonlinear_arith);
        lemma_share_le(exit_notional as int, cfg.fee_bps as int, 10_000);
        assert(spec_partial_close_size(*pos, pct) * mark_fp * cfg.fee_bps == (
        spec_partial_close_size(*pos, pct) * mark_fp) * (cfg.fee_bps as int))
            by (nonlinear_arith);
    }
    let fee_fp: u128 = (exit_notional * (cfg.fee_bps as u128)) / 10_000;
    let pnl_fp: i128 = if pos.is_long {
        (exit_notional as i128) - (entry_notional as i128)
    } else {
        (entry_notional as i128) - (exit_notional as i128)
    };
    let after_fee: u128 = exit_notional - fee_fp;
    let settle_fp: i128 = match (after_fee as i128).checked_add(pnl_fp) {
        Some(v) => v,
        None => { return None; },
    };
    let settle_clamped: u128 = if settle_fp >= 0 {
        settle_fp as u128
    } else {
        0
    };
    let settle_amt_wide: u128 = settle_clamped / FP;
    if settle_amt_wide > u64::MAX as u128 {
        return None;
    }
    let fee_amt_wide: u128 = fee_fp / FP;
    if fee_amt_wide > u64::MAX as u128 {
        return None;
    }
    proof {
        lemma_div_pos_is_pos(fee_fp as int, FP as int);
    }
    if pos.realized_pnl_fp.checked_add(pnl_fp).is_none() {
        return None;
    }
    if pos.total_fees_paid.checked_add(fee_amt_wide as u64).is_none() {
        return None;
    }
    proof {
        // The remaining-size ratio stays at or below the whole scale.
        lemma_mul_inequality(remaining_size as int, abs as int, FP as int);
        assert(remaining_size * FP == (remaining_size as int) * (FP as int)) by (nonlinear_arith);
        assert(abs * FP == (abs as int) * (FP as int)) by (nonlinear_arith);
        lemma_div_is_ordered(remaining_size * FP, abs * FP, abs as int);
        assert((abs as int) * (FP as int) == (FP as int) * (abs as int)) by (nonlinear_arith);
        lemma_div_multiples_vanish(FP as int, abs as int);
        lemma_div_pos_is_pos(remaining_size * FP, abs as int);
    }
    let remaining_ratio: u128 = ((remaining_size as u128) * FP) / (abs as u128);
    proof {
        lemma_share_le(pos.margin_deposited as int, remaining_ratio as int, FP as int);
    }
    let new_margin: u64 = (((pos.margin_deposited as u128) * remaining_ratio) / FP) as u64;
    Some(PartialAmounts {
        close_size,
        remaining_size,
        pnl_fp,
        settlement_amount: settle_amt_wide as u64,
        fee_paid: fee_amt_wide as u64,
        new_margin,
    })
}

/// Closing part of a position and then closing the remainder removes
/// exactly the original size: the two closed sizes sum to the whole,
/// nothing is created or lost by the rounding of the partial close, and
/// a full close of the remainder leaves the position empty.
pub proof fn lemma_partial_then_full_close_conserves_size(pos: UserPosition, pct: u8, now: i64)
    requires
        pos.wf(),
        pos.base_size != 0,
        1 <= pct <= 99,
    ensures
        spec_partial_candidate(pos, pct, now).wf(),
        spec_partial_candidate(pos, pct, now).abs_base() == spec_partial_remaining(pos, pct),
        spec_partial_close_size(pos, pct) + spec_partial_candidate(pos, pct, now).abs_base()
            == pos.abs_base(),
{
    let abs = pos.abs_base();
    let close = spec_partial_close_size(pos, pct);
    let remaining = spec_partial_remaining(pos, pct);
    lemma_share_le(abs, pct as int, 100);
    // The close of at most ninety-nine percent never exceeds the whole.
    lemma_fundamental_div_mod(abs * pct, 100);
    lemma_mod_division_less_than_divisor(abs * pct, 100);
    lemma_mul_inequality(pct as int, 100, abs);
    assert(abs * pct == pct * abs) by (nonlinear_arith);
    assert(abs * 100 == 100 * abs) by (nonlinear_arith);
    assert(0 <= remaining <= abs);
    if pos.is_long {
        assert(spec_partial_new_base(pos, pct) == remaining);
    } else {
        assert(spec_partial_new_base(pos, pct) == -remaining);
    }
}

/// Everything the ledger needs after an accepted partial close.
#[derive(Clone, Copy, Debug, PartialEq, Eq)]
pub struct PartialPositionClosed {
    /// Percentage of the position that was closed.
    pub close_percentage: u8,
    /// Base units closed.
    pub closed_size: u64,
    /// Base units left open.
    pub remaining_size: u64,
    /// Profit and loss realized on the closed fraction, fixed point.
    pub pnl_fp: i128,
    /// Settlement to transfer from the vault to the trader, raw units.
    pub settlement_amount: u64,
    /// Fee to transfer from the vault to the fee destination, raw units.
    pub fees_paid: u64,
}

/// The first reason a partial close is rejected, if any: an
/// out-of-range percentage, pauses, a missing position, a bad oracle, a
/// vanishing close size, arithmetic leaving the machine width, or a
/// remainder that would be liquidatable at the very price used for the
/// close.
pub open spec fn spec_partial_close_err(
    cfg: Config,
    market: Market,
    pos: UserPosition,
    oracle: OraclePrice,
    now: i64,
    pct: u8,
) -> Option<PerpsError> {
    let mark = oracle.price_fp;
    if !(1 <= pct < 100) {
        Some(PerpsError::InvalidClosePercentage)
    } else if market.is_paused {
        Some(PerpsError::MarketPaused)
    } else if pos.base_size == 0 {
        Some(PerpsError::PositionNotFound)
    } else if !spec_oracle_valid(oracle, OracleConfig::spec_default(), now) {
        Some(PerpsError::BadOracle)
    } else if spec_partial_close_size(pos, pct) == 0 {
        Some(PerpsError::PositionTooSmall)
    } else if !spec_partial_fits(cfg, pos, mark, pct) {
        Some(PerpsError::MathOverflow)
    } else if !spec_partial_candidate(pos, pct, now).valuation_fits(mark) {
        Some(PerpsError::MathOverflow)
    } else if spec_partial_candidate(pos, pct, now).spec_is_liquidatable(
        mark,
        market.maintenance_margin_bps,
    ) {
        Some(PerpsError::WouldBeLiquidated)
    } else {
        None
    }
}

/// Closes the given percentage of the position at the validated price:
/// settles profit, loss and fee on the closed fraction, scales the
/// remaining margin proportionally, and shrinks the market aggregate.
/// Rejects the close if the remainder would be liquidatable at the same
/// price. The caller must pay `settlement_amount` to the trader and
/// `fees_paid` to the fee destination from the custody vault.
pub fn partial_close_position(
    cfg: &Config,
    market: &mut Market,
    pos: &mut UserPosition,
    oracle: &OraclePrice,
    now: i64,
    close_percentage: u8,
) -> (r: Result<PartialPositionClosed, PerpsError>)
    requires
        cfg.wf(),
        old(market).wf(),
        old(pos).wf(),
    ensures
        final(pos).wf(),
        final(pos).margin_deposited <= old(pos).margin_deposited,
        (match spec_partial_close_err(*cfg, *old(market), *old(pos), *oracle, now, close_percentage) {
            Some(e) => r == Err::<PartialPositionClosed, PerpsError>(e) && *final(market) == *old(
                market,
            ) && *final(pos) == *old(pos),
            None => {
                let mark = oracle.price_fp;
                let pnl = spec_partial_pnl(*old(pos), mark, close_percentage);
                let close = spec_partial_close_size(*old(pos), close_percentage);
                &&& r == Ok::<PartialPositionClosed, PerpsError>(PartialPositionClosed {
                    close_percentage,
                    closed_size: close as u64,
                    remaining_size: spec_partial_remaining(*old(pos), close_percentage) as u64,
                    pnl_fp: pnl as i128,
                    settlement_amount: spec_partial_settle_amt(
                        *cfg,
                        *old(pos),
                        mark,
                        close_percentage,
                    ) as u64,
                    fees_paid: spec_partial_fee_amt(*cfg, *old(pos), mark, close_percentage) as u64,
                })
                &&& *final(pos) == (UserPosition {
                    realized_pnl_fp: (old(pos).realized_pnl_fp + pnl) as i128,
                    total_fees_paid: (old(pos).total_fees_paid + spec_partial_fee_amt(
                        *cfg,
                        *old(pos),
                        mark,
                        close_percentage,
                    )) as u64,
                    ..spec_partial_candidate(*old(pos), close_percentage, now)
                })
                &&& *final(market) == (Market {
                    total_long_size: if old(pos).is_long {
                        sat_sub(old(market).total_long_size as int, close) as u64
                    } else {
                        old(market).total_long_size
                    },
                    total_short_size: if old(pos).is_long {
                        old(market).total_short_size
                    } else {
                        sat_sub(old(market).total_short_size as int, close) as u64
                    },
                    ..*old(market)
                })
            },
        }),
{
    if close_percentage == 0 || close_percentage >= 100 {
        return Err(PerpsError::InvalidClosePercentage);
    }
    if market.is_paused {
        return Err(PerpsError::MarketPaused);
    }
    if pos.base_size == 0 {
        return Err(PerpsError::PositionNotFound);
    }
    let mark_fp: u128 = match read_oracle_fp(oracle, now) {
        Ok(p) => p,
        Err(e) => { return Err(e); },
    };
    let abs: u64 = pos.abs_base_units();
    proof {
        lemma_share_le(abs as int, close_percentage as int, 100);
    }
    let close_probe: u64 = (((abs as u128) * (close_percentage as u128)) / 100) as u64;
    if close_probe == 0 {
        return Err(PerpsError::PositionTooSmall);
    }
    let amounts: PartialAmounts = match compute_partial_amounts(
        cfg,
        pos,
        mark_fp,
        close_percentage,
    ) {
        Some(a) => a,
        None => { return Err(PerpsError::MathOverflow); },
    };
    let candidate = UserPosition {
        base_size: if pos.is_long {
            amounts.remaining_size as i64
        } else {
            -(amounts.remaining_size as i64)
        },
        margin_deposited: amounts.new_margin,
        last_updated_ts: now,
        ..*pos
    };
    if !candidate.valuation_in_range(mark_fp) {
        return Err(PerpsError::MathOverflow);
    }
    if candidate.is_liquidatable(mark_fp, market.maintenance_margin_bps) {
        return Err(PerpsError::WouldBeLiquidated);
    }
    if pos.is_long {
        market.total_long_size = market.total_long_size.saturating_sub(amounts.close_size);
    } else {
        market.total_short_size = market.total_short_size.saturating_sub(amounts.close_size);
    }
    pos.base_size = candidate.base_size;
    pos.margin_deposited = amounts.new_margin;
    pos.realized_pnl_fp = pos.realized_pnl_fp + amounts.pnl_fp;
    pos.total_fees_paid = pos.total_fees_paid + amounts.fee_paid;
    pos.last_updated_ts = now;
    Ok(PartialPositionClosed {
        close_percentage,
        closed_size: amounts.close_size,
        remaining_size: amounts.remaining_size,
        pnl_fp: amounts.pnl_fp,
        settlement_amount: amounts.settlement_amount,
        fees_paid: amounts.fee_paid,
    })
}

/// Everything the ledger needs after an accepted margin change: a
/// positive `margin_change` moves that amount from the trader to the
/// vault, a negative one moves its magnitude back to the trader.
#[derive(Clone, Copy, Debug, PartialEq, Eq)]
pub struct PositionMarginModified {
    /// The signed change that was applied, raw units.
    pub margin_change: i64,
    /// Margin deposited after the change, raw units.
    pub new_margin: u64,
}

/// Magnitude of a signed margin change.
pub open spec fn spec_abs_change(margin_change: i64) -> int {
    if margin_change >= 0 {
        margin_change as int
    } else {
        -(margin_change as int)
    }
}

/// The first reason a margin change is rejected, if any: pauses, a
/// missing position, a bad oracle, arithmetic leaving the machine width,
/// a removal of more than the deposit, or a removal that would leave the
/// position below its maintenance requirement at the current price.
pub open spec fn spec_modify_margin_err(
    market: Market,
    pos: UserPosition,
    oracle: OraclePrice,
    now: i64,
    margin_change: i64,
) -> Option<PerpsError> {
    let mark = oracle.price_fp;
    if market.is_paused {
        Some(PerpsError::MarketPaused)
    } else if pos.base_size == 0 {
        Some(PerpsError::PositionNotFound)
    } else if !spec_oracle_valid(oracle, OracleConfig::spec_default(), now) {
        Some(PerpsError::BadOracle)
    } else if margin_change > 0 && pos.margin_deposited + margin_change > u64::MAX {
        Some(PerpsError::MathOverflow)
    } else if margin_change < 0 && pos.margin_deposited <= spec_abs_change(margin_change) {
        Some(PerpsError::InsufficientFunds)
    } else if margin_change < 0 && pos.abs_base() * mark * 10_000 > u128::MAX {
        Some(PerpsError::MathOverflow)
    } else if margin_change < 0 && (pos.margin_deposited - spec_abs_change(margin_change)) * FP
        < pos.spec_maintenance_required_fp(mark, market.maintenance_margin_bps) {
        Some(PerpsError::WouldBeLiquidated)
    } else {
        None
    }
}

/// Adds or removes margin on an open position. A removal must leave the
/// remaining margin at or above the maintenance requirement at the
/// validated price; funding of the transfer is the caller's side.
pub fn modify_position_margin(
    market: &Market,
    pos: &mut UserPosition,
    oracle: &OraclePrice,
    now: i64,
    margin_change: i64,
) -> (r: Result<PositionMarginModified, PerpsError>)
    requires
        market.wf(),
        old(pos).wf(),
    ensures
        final(pos).wf(),
        (match spec_modify_margin_err(*market, *old(pos), *oracle, now, margin_change) {
            Some(e) => r == Err::<PositionMarginModified, PerpsError>(e) && *final(pos) == *old(
                pos,
            ),
            None => {
                let new_margin = if margin_change >= 0 {
                    old(pos).margin_deposited + margin_change
                } else {
                    old(pos).margin_deposited - spec_abs_change(margin_change)
                };
                &&& r == Ok::<PositionMarginModified, PerpsError>(PositionMarginModified {
                    margin_change,
                    new_margin: new_margin as u64,
                })
                &&& *final(pos) == (UserPosition {
                    margin_deposited: new_margin as u64,
                    ..*old(pos)
                })
            },
        }),
{
    if market.is_paused {
        return Err(PerpsError::MarketPaused);
    }
    if pos.base_size == 0 {
        return Err(PerpsError::PositionNotFound);
    }
    let mark_fp: u128 = match read_oracle_fp(oracle, now) {
        Ok(p) => p,
        Err(e) => { return Err(e); },
    };
    if margin_change > 0 {
        let add_amount: u64 = margin_change as u64;
        let new_margin: u64 = match pos.margin_deposited.checked_add(add_amount) {
            Some(m) => m,
            None => { return Err(PerpsError::MathOverflow); },
        };
        pos.margin_deposited = new_margin;
        Ok(PositionMarginModified { margin_change, new_margin })
    } else if margin_change < 0 {
        let remove_amount: u64 = ((-(margin_change as i128)) as u64);
        if pos.margin_deposited <= remove_amount {
            return Err(PerpsError::InsufficientFunds);
        }
        let new_margin: u64 = pos.margin_deposited - remove_amount;
        let abs: u64 = pos.abs_base_units();
        let notional_fp: u128 = match (abs as u128).checked_mul(mark_fp) {
            Some(x) => x,
            None => { return Err(PerpsError::MathOverflow); },
        };
        if notional_fp.checked_mul(10_000).is_none() {
            return Err(PerpsError::MathOverflow);
        }
        proof {
            lemma_mul_inequality(market.maintenance_margin_bps as int, 10_000, notional_fp as int);
            assert(notional_fp * (market.maintenance_margin_bps as int) == (
            market.maintenance_margin_bps as int) * notional_fp) by (nonlinear_arith);
            assert(notional_fp * 10_000 == 10_000 * notional_fp) by (nonlinear_arith);
        }
        let required_fp: u128 = (notional_fp * (market.maintenance_margin_bps as u128)) / 10_000;
        if ((new_margin as u128) * FP) < required_fp {
            return Err(PerpsError::WouldBeLiquidated);
        }
        pos.margin_deposited = new_margin;
        Ok(PositionMarginModified { margin_change, new_margin })
    } else {
        Ok(PositionMarginModified { margin_change, new_margin: pos.margin_deposited })
    }
}

/// The first reason placing a stop-loss is rejected, if any: an
/// out-of-range percentage, a missing position, a zero trigger, a bad
/// oracle, or a trigger on the wrong side of the current price.
pub open spec fn spec_set_stop_loss_err(
    pos: UserPosition,
    oracle: OraclePrice,
    now: i64,
    trigger_price_fp: u128,
    pct: u8,
) -> Option<PerpsError> {
    if !(1 <= pct <= 100) {
        Some(PerpsError::InvalidMarketParameters)
    } else if pos.base_size == 0 {
        Some(PerpsError::PositionNotFound)
    } else if trigger_price_fp == 0 {
        Some(PerpsError::InvalidPrice)
    } else if !spec_oracle_valid(oracle, OracleConfig::spec_default(), now) {
        Some(PerpsError::BadOracle)
    } else if pos.is_long && trigger_price_fp >= oracle.price_fp {
        Some(PerpsError::InvalidStopLoss)
    } else if !pos.is_long && trigger_price_fp <= oracle.price_fp {
        Some(PerpsError::InvalidStopLoss)
    } else {
        None
    }
}

/// Creates or overwrites the stop-loss order guarding the position. The
/// trigger must sit on the loss side of the current price: below it for
/// a long, above it for a short.
pub fn set_stop_loss(
    pos: &UserPosition,
    order: &mut StopLossOrder,
    oracle: &OraclePrice,
    now: i64,
    trigger_price_fp: u128,
    close_percentage: u8,
) -> (r: Result<(), PerpsError>)
    requires
        pos.wf(),
        old(order).wf(),
    ensures
        final(order).wf(),
        (match spec_set_stop_loss_err(*pos, *oracle, now, trigger_price_fp, close_percentage) {
            Some(e) => r == Err::<(), PerpsError>(e) && *final(order) == *old(order),
            None => r == Ok::<(), PerpsError>(()) && *final(order) == (StopLossOrder {
                trigger_price_fp,
                close_percentage,
                is_active: true,
                created_at: now,
                executed_at: None,
            }),
        }),
{
    if close_percentage == 0 || close_percentage > 100 {
        return Err(PerpsError::InvalidMarketParameters);
    }
    if pos.base_size == 0 {
        return Err(PerpsError::PositionNotFound);
    }
    if trigger_price_fp == 0 {
        return Err(PerpsError::InvalidPrice);
    }
    let current_price_fp: u128 = match read_oracle_fp(oracle, now) {
        Ok(p) => p,
        Err(e) => { return Err(e); },
    };
    if pos.is_long {
        if trigger_price_fp >= current_price_fp {
            return Err(PerpsError::InvalidStopLoss);
        }
    } else {
        if trigger_price_fp <= current_price_fp {
            return Err(PerpsError::InvalidStopLoss);
        }
    }
    order.trigger_price_fp = trigger_price_fp;
    order.close_percentage = close_percentage;
    order.is_active = true;
    order.created_at = now;
    order.executed_at = None;
    Ok(())
}

/// Everything the ledger needs after an executed stop-loss.
#[derive(Clone, Copy, Debug, PartialEq, Eq)]
pub struct StopLossExecuted {
    /// Percentage of the position the order closed.
    pub close_percentage: u8,
    /// Price at which the order executed, fixed point.
    pub executed_price_fp: u128,
    /// Base units closed.
    pub closed_size: u64,
    /// Settlement to transfer from the vault to the trader, raw units.
    pub settlement_amount: u64,
    /// Fee to transfer from the vault to the fee destination, raw units.
    pub fees_paid: u64,
}

/// Whether the stop-loss trigger condition holds at the mark price:
/// at or below the trigger for a long, at or above it for a short.
pub open spec fn spec_stop_loss_triggered(pos: UserPosition, order: StopLossOrder, mark_fp: u128) -> bool {
    if pos.is_long {
        mark_fp <= order.trigger_price_fp
    } else {
        mark_fp >= order.trigger_price_fp
    }
}

/// The first reason executing a stop-loss is rejected, if any: an
/// inactive order, pauses, a bad oracle, an untriggered condition, a
/// missing position, or arithmetic leaving the machine width.
pub open spec fn spec_execute_stop_loss_err(
    cfg: Config,
    market: Market,
    pos: UserPosition,
    order: StopLossOrder,
    oracle: OraclePrice,
    now: i64,
) -> Option<PerpsError> {
    let mark = oracle.price_fp;
    if !order.is_active {
        Some(PerpsError::OrderNotActive)
    } else if market.is_paused {
        Some(PerpsError::MarketPaused)
    } else if !spec_oracle_valid(oracle, OracleConfig::spec_default(), now) {
        Some(PerpsError::BadOracle)
    } else if !spec_stop_loss_triggered(pos, order, mark) {
        Some(PerpsError::StopLossNotTriggered)
    } else if pos.base_size == 0 {
        Some(PerpsError::PositionNotFound)
    } else if order.close_percentage < 100 && spec_partial_close_size(pos, order.close_percentage)
        == 0 {
        Some(PerpsError::PositionTooSmall)
    } else if order.close_percentage == 100 && !spec_close_fits(cfg, pos, mark) {
        Some(PerpsError::MathOverflow)
    } else if order.close_percentage < 100 && !spec_partial_fits(
        cfg,
        pos,
        mark,
        order.close_percentage,
    ) {
        Some(PerpsError::MathOverflow)
    } else {
        None
    }
}

/// Executes an active, triggered stop-loss: a one-hundred-percent order
/// settles like a full close and clears the position, a smaller one
/// settles like a partial close; either way the order is deactivated and
/// timestamped. Any caller may execute; the payout still goes to the
/// position owner.
pub fn execute_stop_loss(
    cfg: &Config,
    market: &mut Market,
    pos: &mut UserPosition,
    order: &mut StopLossOrder,
    oracle: &OraclePrice,
    now: i64,
) -> (r: Result<StopLossExecuted, PerpsError>)
    requires
        cfg.wf(),
        old(market).wf(),
        old(pos).wf(),
        old(order).wf(),
    ensures
        final(pos).wf(),
        final(order).wf(),
        (match spec_execute_stop_loss_err(*cfg, *old(market), *old(pos), *old(order), *oracle, now) {
            Some(e) => r == Err::<StopLossExecuted, PerpsError>(e) && *final(market) == *old(market)
                && *final(pos) == *old(pos) && *final(order) == *old(order),
            None => {
                let mark = oracle.price_fp;
                let pct = old(order).close_percentage;
                let full = pct == 100;
                let close = if full {
                    old(pos).abs_base()
                } else {
                    spec_partial_close_size(*old(pos), pct)
                };
                let settle = if full {
                    spec_close_settle_amt(*cfg, *old(pos), mark)
                } else {
                    spec_partial_settle_amt(*cfg, *old(pos), mark, pct)
                };
                let fee = if full {
                    spec_close_fee_amt(*cfg, *old(pos), mark)
                } else {
                    spec_partial_fee_amt(*cfg, *old(pos), mark, pct)
                };
                let pnl = if full {
                    old(pos).spec_unrealized_pnl_fp(mark)
                } else {
                    spec_partial_pnl(*old(pos), mark, pct)
                };
                &&& r == Ok::<StopLossExecuted, PerpsError>(StopLossExecuted {
                    close_percentage: pct,
                    executed_price_fp: mark,
                    closed_size: close as u64,
                    settlement_amount: settle as u64,
                    fees_paid: fee as u64,
                })
                &&& *final(order) == (StopLossOrder {
                    is_active: false,
                    executed_at: Some(now),
                    ..*old(order)
                })
                &&& (full ==> *final(pos) == (UserPosition {
                    is_long: false,
                    base_size: 0,
                    entry_price_fp: 0,
                    margin_deposited: 0,
                    realized_pnl_fp: (old(pos).realized_pnl_fp + pnl) as i128,
                    total_fees_paid: (old(pos).total_fees_paid + fee) as u64,
                    last_updated_ts: now,
                    ..*old(pos)
                }))
                &&& (!full ==> *final(pos) == (UserPosition {
                    realized_pnl_fp: (old(pos).realized_pnl_fp + pnl) as i128,
                    total_fees_paid: (old(pos).total_fees_paid + fee) as u64,
                    ..spec_partial_candidate(*old(pos), pct, now)
                }))
                &&& *final(market) == (Market {
                    total_long_size: if old(pos).is_long {
                        sat_sub(old(market).total_long_size as int, close) as u64
                    } else {
                        old(market).total_long_size
                    },
                    total_short_size: if old(pos).is_long {
                        old(market).total_short_size
                    } else {
                        sat_sub(old(market).total_short_size as int, close) as u64
                    },
                    ..*old(market)
                })
            },
        }),
{
    if !order.is_active {
        return Err(PerpsError::OrderNotActive);
    }
    if market.is_paused {
        return Err(PerpsError::MarketPaused);
    }
    let mark_fp: u128 = match read_oracle_fp(oracle, now) {
        Ok(p) => p,
        Err(e) => { return Err(e); },
    };
    let should_trigger: bool = if pos.is_long {
        mark_fp <= order.trigger_price_fp
    } else {
        mark_fp >= order.trigger_price_fp
    };
    if !should_trigger {
        return Err(PerpsError::StopLossNotTriggered);
    }
    if pos.base_size == 0 {
        return Err(PerpsError::PositionNotFound);
    }
    let abs: u64 = pos.abs_base_units();
    if order.close_percentage == 100 {
        let amounts: CloseAmounts = match compute_close_amounts(cfg, pos, mark_fp) {
            Some(a) => a,
            None => { return Err(PerpsError::MathOverflow); },
        };
        if pos.is_long {
            market.total_long_size = market.total_long_size.saturating_sub(abs);
        } else {
            market.total_short_size = market.total_short_size.saturating_sub(abs);
        }
        pos.realized_pnl_fp = pos.realized_pnl_fp + amounts.pnl_fp;
        pos.total_fees_paid = pos.total_fees_paid + amounts.fee_paid;
        pos.is_long = false;
        pos.base_size = 0;
        pos.entry_price_fp = 0;
        pos.margin_deposited = 0;
        pos.last_updated_ts = now;
        order.is_active = false;
        order.executed_at = Some(now);
        Ok(StopLossExecuted {
            close_percentage: 100,
            executed_price_fp: mark_fp,
            closed_size: abs,
            settlement_amount: amounts.settlement_amount,
            fees_paid: amounts.fee_paid,
        })
    } else {
        proof {
            lemma_share_le(abs as int, order.close_percentage as int, 100);
        }
        let close_probe: u64 = (((abs as u128) * (order.close_percentage as u128)) / 100) as u64;
        if close_probe == 0 {
            return Err(PerpsError::PositionTooSmall);
        }
        let amounts: PartialAmounts = match compute_partial_amounts(
            cfg,
            pos,
            mark_fp,
            order.close_percentage,
        ) {
            Some(a) => a,
            None => { return Err(PerpsError::MathOverflow); },
        };
        if pos.is_long {
            market.total_long_size = market.total_long_size.saturating_sub(amounts.close_size);
        } else {
            market.total_short_size = market.total_short_size.saturating_sub(amounts.close_size);
        }
        pos.base_size = if pos.is_long {
            amounts.remaining_size as i64
        } else {
            -(amounts.remaining_size as i64)
        };
        pos.margin_deposited = amounts.new_margin;
        pos.realized_pnl_fp = pos.realized_pnl_fp + amounts.pnl_fp;
        pos.total_fees_paid = pos.total_fees_paid + amounts.fee_paid;
        pos.last_updated_ts = now;
        let pct: u8 = order.close_percentage;
        order.is_active = false;
        order.executed_at = Some(now);
        Ok(StopLossExecuted {
            close_percentage: pct,
            executed_price_fp: mark_fp,
            closed_size: amounts.close_size,
            settlement_amount: amounts.settlement_amount,
            fees_paid: amounts.fee_paid,
        })
    }
}

} // verus!
