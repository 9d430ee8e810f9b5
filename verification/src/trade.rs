//! Opening and closing positions.
//!
//! Each operation validates its inputs against a price snapshot taken
//! once from the oracle, mutates the market and position records, and
//! returns the amounts that the surrounding ledger must move. A failing
//! operation returns its error and leaves every record untouched.

use vstd::prelude::*;
use vstd::arithmetic::div_mod::{
    lemma_div_is_ordered, lemma_div_multiples_vanish, lemma_div_pos_is_pos,
};
use vstd::arithmetic::mul::{lemma_mul_inequality, lemma_mul_nonnegative};
use crate::errors::PerpsError;
use crate::fixed_point::{FP, MAX_LEVERAGE_X};
use crate::oracle::{read_oracle_fp, spec_oracle_valid, OracleConfig};
use crate::state::{Config, Market, OraclePrice, UserPosition};

verus! {

/// Subtraction on aggregate sizes, floored at zero.
pub open spec fn sat_sub(a: int, b: int) -> int {
    if a - b >= 0 {
        a - b
    } else {
        0
    }
}

/// A share of `x` weighted by `num` out of `den` never exceeds `x`.
pub proof fn lemma_share_le(x: int, num: int, den: int)
    requires
        0 <= x,
        0 <= num <= den,
        0 < den,
    ensures
        0 <= x * num / den <= x,
{
    lemma_mul_inequality(num, den, x);
    assert(x * num == num * x) by (nonlinear_arith);
    assert(x * den == den * x) by (nonlinear_arith);
    lemma_div_is_ordered(x * num, x * den, den);
    lemma_div_multiples_vanish(x, den);
    lemma_mul_nonnegative(x, num);
    lemma_div_pos_is_pos(x * num, den);
}

/// The advisory liquidation price: entry price scaled down (for a long)
/// or up (for a short) by the maintenance margin share. Ignores funding
/// debt and fee drag; the exact trigger is the valuer's liquidatable
/// test.
pub open spec fn spec_liquidation_price(
    entry_price_fp: u128,
    maintenance_margin_bps: u16,
    is_long: bool,
) -> int {
    if is_long {
        entry_price_fp * (10_000 - maintenance_margin_bps) / 10_000
    } else {
        entry_price_fp * (10_000 + maintenance_margin_bps) / 10_000
    }
}

/// Whether the liquidation-price product fits in the machine width.
pub open spec fn spec_liquidation_price_fits(
    entry_price_fp: u128,
    maintenance_margin_bps: u16,
    is_long: bool,
) -> bool {
    if is_long {
        entry_price_fp * (10_000 - maintenance_margin_bps) <= u128::MAX
    } else {
        entry_price_fp * (10_000 + maintenance_margin_bps) <= u128::MAX
    }
}

/// Advisory liquidation price for a position entered at the given price.
pub fn calculate_liquidation_price(
    entry_price_fp: u128,
    maintenance_margin_bps: u16,
    is_long: bool,
) -> (r: Result<u128, PerpsError>)
    requires
        maintenance_margin_bps <= 10_000,
    ensures
        spec_liquidation_price_fits(entry_price_fp, maintenance_margin_bps, is_long) ==> r == Ok::<
            u128,
            PerpsError,
        >(spec_liquidation_price(entry_price_fp, maintenance_margin_bps, is_long) as u128),
        !spec_liquidation_price_fits(entry_price_fp, maintenance_margin_bps, is_long) ==> r
            == Err::<u128, PerpsError>(PerpsError::MathOverflow),
{
    let factor: u128 = if is_long {
        10_000 - (maintenance_margin_bps as u128)
    } else {
        10_000 + (maintenance_margin_bps as u128)
    };
    match entry_price_fp.checked_mul(factor) {
        Some(numerator) => Ok(numerator / 10_000),
        None => Err(PerpsError::MathOverflow),
    }
}

/// Everything the ledger needs after an accepted open: the margin to
/// move from the trader to the vault and the recorded entry terms.
#[derive(Clone, Copy, Debug, PartialEq, Eq)]
pub struct PositionOpened {
    /// Direction of the new position.
    pub is_long: bool,
    /// Position size in base units.
    pub base_size: u64,
    /// Entry price, fixed point.
    pub entry_price_fp: u128,
    /// Leverage multiplier the trader chose.
    pub leverage: u16,
    /// Margin to transfer from the trader to the custody vault, raw units.
    pub margin_deposited: u64,
    /// Advisory liquidation price, fixed point.
    pub liquidation_price_fp: u128,
}

/// Everything the ledger needs after an accepted close: the settlement
/// owed to the trader and the fee owed to the fee destination.
#[derive(Clone, Copy, Debug, PartialEq, Eq)]
pub struct PositionClosed {
    /// Realized profit and loss on the closed size, fixed point.
    pub pnl_fp: i128,
    /// Settlement to transfer from the vault to the trader, raw units.
    pub settlement_amount: u64,
    /// Fee to transfer from the vault to the fee destination, raw units.
    pub fee_paid: u64,
}

/// Base units bought for the quote spent at the given price: the quote
/// scaled up once and divided by the fixed-point price.
pub open spec fn spec_open_base_size(quote_to_spend: u64, price_fp: u128) -> int {
    quote_to_spend * FP / (price_fp as int)
}

/// The first reason an open is rejected, if any: pauses, leverage and
/// size caps, a vanishing margin or size, a bad oracle, or arithmetic
/// leaving the machine width.
pub open spec fn spec_open_err(
    cfg: Config,
    market: Market,
    oracle: OraclePrice,
    now: i64,
    is_long: bool,
    quote_to_spend: u64,
    leverage_x: u16,
) -> Option<PerpsError> {
    let price = oracle.price_fp;
    let base = spec_open_base_size(quote_to_spend, price);
    if cfg.paused {
        Some(PerpsError::ProtocolPaused)
    } else if market.is_paused {
        Some(PerpsError::MarketPaused)
    } else if leverage_x > MAX_LEVERAGE_X {
        Some(PerpsError::LeverageTooHigh)
    } else if leverage_x > market.taker_leverage_cap_x {
        Some(PerpsError::LeverageTooHigh)
    } else if quote_to_spend == 0 {
        Some(PerpsError::InvalidMarketParameters)
    } else if leverage_x == 0 {
        Some(PerpsError::MathOverflow)
    } else if quote_to_spend / (leverage_x as u64) == 0 {
        Some(PerpsError::InsufficientMargin)
    } else if !spec_oracle_valid(oracle, OracleConfig::spec_default(), now) {
        Some(PerpsError::BadOracle)
    } else if base == 0 {
        Some(PerpsError::PositionTooSmall)
    } else if base > market.max_position_base {
        Some(PerpsError::MaxPositionExceeded)
    } else if !spec_liquidation_price_fits(price, market.maintenance_margin_bps, is_long) {
        Some(PerpsError::MathOverflow)
    } else if is_long && market.total_long_size + base > u64::MAX {
        Some(PerpsError::MathOverflow)
    } else if !is_long && market.total_short_size + base > u64::MAX {
        Some(PerpsError::MathOverflow)
    } else if market.total_volume + quote_to_spend > u128::MAX {
        Some(PerpsError::MathOverflow)
    } else {
        None
    }
}

/// Opens a leveraged position: checks pauses, leverage and size caps,
/// derives margin and base size from the quote spent at the validated
/// price, records the entry and grows the market aggregates. The caller
/// must move `margin_deposited` from the trader to the custody vault
/// atomically with this transition.
pub fn open_position(
    cfg: &Config,
    market: &mut Market,
    pos: &mut UserPosition,
    oracle: &OraclePrice,
    now: i64,
    is_long: bool,
    quote_to_spend: u64,
    leverage_x: u16,
) -> (r: Result<PositionOpened, PerpsError>)
    requires
        old(market).wf(),
        old(pos).wf(),
    ensures
        final(market).wf(),
        final(pos).wf(),
        (match spec_open_err(*cfg, *old(market), *oracle, now, is_long, quote_to_spend, leverage_x) {
            Some(e) => r == Err::<PositionOpened, PerpsError>(e) && *final(market) == *old(market)
                && *final(pos) == *old(pos),
            None => {
                let price = oracle.price_fp;
                let margin = quote_to_spend / (leverage_x as u64);
                let base = spec_open_base_size(quote_to_spend, price);
                let liq = spec_liquidation_price(price, old(market).maintenance_margin_bps, is_long);
                &&& r == Ok::<PositionOpened, PerpsError>(PositionOpened {
                    is_long,
                    base_size: base as u64,
                    entry_price_fp: price,
                    leverage: leverage_x,
                    margin_deposited: margin,
                    liquidation_price_fp: liq as u128,
                })
                &&& *final(market) == (Market {
                    total_long_size: if is_long {
                        (old(market).total_long_size + base) as u64
                    } else {
                        old(market).total_long_size
                    },
                    total_short_size: if is_long {
                        old(market).total_short_size
                    } else {
                        (old(market).total_short_size + base) as u64
                    },
                    total_volume: (old(market).total_volume + quote_to_spend) as u128,
                    ..*old(market)
                })
                &&& *final(pos) == (UserPosition {
                    is_long,
                    base_size: if is_long {
                        base as i64
                    } else {
                        (-base) as i64
                    },
                    entry_price_fp: price,
                    margin_deposited: margin,
                    last_funding_settled: now,
                    funding_debt_fp: 0,
                    liquidation_price_fp: liq as u128,
                    last_updated_ts: now,
                    realized_pnl_fp: 0,
                    total_fees_paid: 0,
                })
            },
        }),
{
    if cfg.paused {
        return Err(PerpsError::ProtocolPaused);
    }
    if market.is_paused {
        return Err(PerpsError::MarketPaused);
    }
    if (leverage_x as u64) > MAX_LEVERAGE_X {
        return Err(PerpsError::LeverageTooHigh);
    }
    if leverage_x > market.taker_leverage_cap_x {
        return Err(PerpsError::LeverageTooHigh);
    }
    if quote_to_spend == 0 {
        return Err(PerpsError::InvalidMarketParameters);
    }
    if leverage_x == 0 {
        return Err(PerpsError::MathOverflow);
    }
    let margin: u64 = quote_to_spend / (leverage_x as u64);
    if margin == 0 {
        return Err(PerpsError::InsufficientMargin);
    }
    let price_fp: u128 = match read_oracle_fp(oracle, now) {
        Ok(p) => p,
        Err(e) => { return Err(e); },
    };
    let base_wide: u128 = ((quote_to_spend as u128) * FP) / price_fp;
    if base_wide == 0 {
        return Err(PerpsError::PositionTooSmall);
    }
    if base_wide > market.max_position_base as u128 {
        return Err(PerpsError::MaxPositionExceeded);
    }
    let base_size_units: u64 = base_wide as u64;
    let liquidation_price_fp: u128 = match calculate_liquidation_price(
        price_fp,
        market.maintenance_margin_bps,
        is_long,
    ) {
        Ok(p) => p,
        Err(e) => { return Err(e); },
    };
    if is_long {
        match market.total_long_size.checked_add(base_size_units) {
            Some(total) => {
                match market.total_volume.checked_add(quote_to_spend as u128) {
                    Some(volume) => {
                        market.total_long_size = total;
                        market.total_volume = volume;
                    },
                    None => { return Err(PerpsError::MathOverflow); },
                }
            },
            None => { return Err(PerpsError::MathOverflow); },
        }
    } else {
        match market.total_short_size.checked_add(base_size_units) {
            Some(total) => {
                match market.total_volume.checked_add(quote_to_spend as u128) {
                    Some(volume) => {
                        market.total_short_size = total;
                        market.total_volume = volume;
                    },
                    None => { return Err(PerpsError::MathOverflow); },
                }
            },
            None => { return Err(PerpsError::MathOverflow); },
        }
    }
    pos.is_long = is_long;
    pos.base_size = if is_long {
        base_size_units as i64
    } else {
        -(base_size_units as i64)
    };
    pos.entry_price_fp = price_fp;
    pos.margin_deposited = margin;
    pos.last_funding_settled = now;
    pos.funding_debt_fp = 0;
    pos.liquidation_price_fp = liquidation_price_fp;
    pos.last_updated_ts = now;
    pos.realized_pnl_fp = 0;
    pos.total_fees_paid = 0;
    Ok(PositionOpened {
        is_long,
        base_size: base_size_units,
        entry_price_fp: price_fp,
        leverage: leverage_x,
        margin_deposited: margin,
        liquidation_price_fp,
    })
}

/// Fee charged on closing the whole position at the given price, fixed
/// point: the exit notional weighted by the trading fee.
pub open spec fn spec_close_fee_fp(cfg: Config, pos: UserPosition, mark_fp: u128) -> int {
    pos.abs_base() * mark_fp * cfg.fee_bps / 10_000
}

/// Settlement owed to the trader on a full close, fixed point: margin
/// plus profit and loss minus fee, floored at zero.
pub open spec fn spec_close_settle_fp(cfg: Config, pos: UserPosition, mark_fp: u128) -> int {
    let raw = pos.margin_deposited * FP + pos.spec_unrealized_pnl_fp(mark_fp) - spec_close_fee_fp(
        cfg,
        pos,
        mark_fp,
    );
    if raw >= 0 {
        raw
    } else {
        0
    }
}

/// Settlement on a full close in raw units.
pub open spec fn spec_close_settle_amt(cfg: Config, pos: UserPosition, mark_fp: u128) -> int {
    spec_close_settle_fp(cfg, pos, mark_fp) / (FP as int)
}

/// Fee on a full close in raw units.
pub open spec fn spec_close_fee_amt(cfg: Config, pos: UserPosition, mark_fp: u128) -> int {
    spec_close_fee_fp(cfg, pos, mark_fp) / (FP as int)
}

/// Every quantity the full-close settlement computes fits in the machine
/// width, the transfer amounts fit in raw units, and the accumulated
/// totals on the position stay representable.
pub open spec fn spec_close_fits(cfg: Config, pos: UserPosition, mark_fp: u128) -> bool {
    let pnl = pos.spec_unrealized_pnl_fp(mark_fp);
    &&& pos.abs_base() * mark_fp <= i128::MAX
    &&& pos.abs_base() * pos.entry_price_fp <= i128::MAX
    &&& pos.abs_base() * mark_fp * 10_000 <= u128::MAX
    &&& pos.margin_deposited * FP + pnl <= i128::MAX
    &&& pos.margin_deposited * FP + pnl - spec_close_fee_fp(cfg, pos, mark_fp) >= i128::MIN
    &&& spec_close_settle_amt(cfg, pos, mark_fp) <= u64::MAX
    &&& spec_close_fee_amt(cfg, pos, mark_fp) <= u64::MAX
    &&& i128::MIN <= pos.realized_pnl_fp + pnl <= i128::MAX
    &&& pos.total_fees_paid + spec_close_fee_amt(cfg, pos, mark_fp) <= u64::MAX
}

/// Amounts of one full-close settlement.
pub struct CloseAmounts {
    /// Realized profit and loss on the closed size, fixed point.
    pub pnl_fp: i128,
    /// Settlement to the trader, raw units.
    pub settlement_amount: u64,
    /// Fee to the fee destination, raw units.
    pub fee_paid: u64,
}

/// Computes the full-close settlement, or nothing where some quantity
/// would leave the machine width.
pub fn compute_close_amounts(cfg: &Config, pos: &UserPosition, mark_fp: u128) -> (r: Option<
    CloseAmounts,
>)
    requires
        cfg.wf(),
    ensures
        r is Some <==> spec_close_fits(*cfg, *pos, mark_fp),
        (r matches Some(a) ==> {
            &&& a.pnl_fp == pos.spec_unrealized_pnl_fp(mark_fp)
            &&& a.settlement_amount == spec_close_settle_amt(*cfg, *pos, mark_fp)
            &&& a.fee_paid == spec_close_fee_amt(*cfg, *pos, mark_fp)
        }),
{
    let abs: u64 = pos.abs_base_units();
    let exit_notional: u128 = match (abs as u128).checked_mul(mark_fp) {
        Some(x) => x,
        None => { return None; },
    };
    let entry_notional: u128 = match (abs as u128).checked_mul(pos.entry_price_fp) {
        Some(x) => x,
        None => { return None; },
    };
    if exit_notional > i128::MAX as u128 || entry_notional > i128::MAX as u128 {
        return None;
    }
    if exit_notional.checked_mul(10_000).is_none() {
        return None;
    }
    proof {
        lemma_mul_inequality(cfg.fee_bps as int, 10_000, exit_notional as int);
        assert(exit_notional * (cfg.fee_bps as int) == (cfg.fee_bps as int) * exit_notional)
            by (nonlinear_arith);
        assert(exit_notional * 10_000 == 10_000 * exit_notional) by (nonlinear_arith);
        lemma_share_le(exit_notional as int, cfg.fee_bps as int, 10_000);
        assert(pos.abs_base() * mark_fp * cfg.fee_bps == (pos.abs_base() * mark_fp)
            * (cfg.fee_bps as int)) by (nonlinear_arith);
    }
    let fee_fp: u128 = (exit_notional * (cfg.fee_bps as u128)) / 10_000;
    let pnl_fp: i128 = if pos.base_size == 0 {
        0
    } else if pos.is_long {
        (exit_notional as i128) - (entry_notional as i128)
    } else {
        (entry_notional as i128) - (exit_notional as i128)
    };
    let margin_fp: i128 = (pos.margin_deposited as i128) * (FP as i128);
    let with_pnl: i128 = match margin_fp.checked_add(pnl_fp) {
        Some(v) => v,
        None => { return None; },
    };
    let settle_fp: i128 = match with_pnl.checked_sub(fee_fp as i128) {
        Some(v) => v,
        None => { return None; },
    };
    let settle_clamped: u128 = if settle_fp >= 0 {
        settle_fp as u128
    } else {
        0
    };
    let settle_amt_wide: u128 = settle_clamped / FP;
    if settle_amt_wide > u64::MAX as u128 {
        return None;
    }
    let fee_amt_wide: u128 = fee_fp / FP;
    if fee_amt_wide > u64::MAX as u128 {
        return None;
    }
    proof {
        lemma_div_pos_is_pos(fee_fp as int, FP as int);
    }
    if pos.realized_pnl_fp.checked_add(pnl_fp).is_none() {
        return None;
    }
    if pos.total_fees_paid.checked_add(fee_amt_wide as u64).is_none() {
        return None;
    }
    Some(CloseAmounts {
        pnl_fp,
        settlement_amount: settle_amt_wide as u64,
        fee_paid: fee_amt_wide as u64,
    })
}

/// The first reason a full close is rejected, if any.
pub open spec fn spec_close_err(
    cfg: Config,
    market: Market,
    pos: UserPosition,
    oracle: OraclePrice,
    now: i64,
) -> Option<PerpsError> {
    if market.is_paused {
        Some(PerpsError::MarketPaused)
    } else if !spec_oracle_valid(oracle, OracleConfig::spec_default(), now) {
        Some(PerpsError::BadOracle)
    } else if pos.base_size == 0 {
        Some(PerpsError::PositionNotFound)
    } else if !spec_close_fits(cfg, pos, oracle.price_fp) {
        Some(PerpsError::MathOverflow)
    } else {
        None
    }
}

/// Closes the whole position: settles profit and loss and the trading
/// fee over the entire size at the validated price, zeroes size and
/// margin, accumulates realized totals, and shrinks the market
/// aggregate. The caller must pay `settlement_amount` to the trader and
/// `fee_paid` to the fee destination from the custody vault.
pub fn close_position(
    cfg: &Config,
    market: &mut Market,
    pos: &mut UserPosition,
    oracle: &OraclePrice,
    now: i64,
) -> (r: Result<PositionClosed, PerpsError>)
    requires
        cfg.wf(),
        old(pos).wf(),
    ensures
        final(pos).wf(),
        (match spec_close_err(*cfg, *old(market), *old(pos), *oracle, now) {
            Some(e) => r == Err::<PositionClosed, PerpsError>(e) && *final(market) == *old(market)
                && *final(pos) == *old(pos),
            None => {
                let mark = oracle.price_fp;
                let pnl = old(pos).spec_unrealized_pnl_fp(mark);
                &&& r == Ok::<PositionClosed, PerpsError>(PositionClosed {
                    pnl_fp: pnl as i128,
                    settlement_amount: spec_close_settle_amt(*cfg, *old(pos), mark) as u64,
                    fee_paid: spec_close_fee_amt(*cfg, *old(pos), mark) as u64,
                })
                &&& *final(pos) == (UserPosition {
                    base_size: 0,
                    margin_deposited: 0,
                    realized_pnl_fp: (old(pos).realized_pnl_fp + pnl) as i128,
                    total_fees_paid: (old(pos).total_fees_paid + spec_close_fee_amt(
                        *cfg,
                        *old(pos),
                        mark,
                    )) as u64,
                    last_updated_ts: now,
                    ..*old(pos)
                })
                &&& *final(market) == (Market {
                    total_long_size: if old(pos).is_long {
                        sat_sub(old(market).total_long_size as int, old(pos).abs_base()) as u64
                    } else {
                        old(market).total_long_size
                    },
                    total_short_size: if old(pos).is_long {
                        old(market).total_short_size
                    } else {
                        sat_sub(old(market).total_short_size as int, old(pos).abs_base()) as u64
                    },
                    ..*old(market)
                })
            },
        }),
{
    if market.is_paused {
        return Err(PerpsError::MarketPaused);
    }
    let mark_fp: u128 = match read_oracle_fp(oracle, now) {
        Ok(p) => p,
        Err(e) => { return Err(e); },
    };
    if pos.base_size == 0 {
        return Err(PerpsError::PositionNotFound);
    }
    let amounts: CloseAmounts = match compute_close_amounts(cfg, pos, mark_fp) {
        Some(a) => a,
        None => { return Err(PerpsError::MathOverflow); },
    };
    let abs: u64 = pos.abs_base_units();
    if pos.is_long {
        market.total_long_size = market.total_long_size.saturating_sub(abs);
    } else {
        market.total_short_size = market.total_short_size.saturating_sub(abs);
    }
    pos.realized_pnl_fp = pos.realized_pnl_fp + amounts.pnl_fp;
    pos.total_fees_paid = pos.total_fees_paid + amounts.fee_paid;
    pos.base_size = 0;
    pos.margin_deposited = 0;
    pos.last_updated_ts = now;
    Ok(PositionClosed {
        pnl_fp: amounts.pnl_fp,
        settlement_amount: amounts.settlement_amount,
        fee_paid: amounts.fee_paid,
    })
}

} // verus!
