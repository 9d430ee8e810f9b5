//! The records the engine reads and writes, their invariants, and the
//! position valuer.
//!
//! All monetary and price quantities suffixed `_fp` are fixed-point
//! integers at the scale of [`crate::fixed_point::FP`]; margins and
//! position sizes are raw token units. Storage and addressing of these
//! records belong to the surrounding ledger, not to this crate.

use vstd::prelude::*;
use vstd::arithmetic::div_mod::{lemma_div_is_ordered, lemma_hoist_over_denominator};
use vstd::arithmetic::mul::lemma_mul_inequality;
use crate::fixed_point::FP;

verus! {

/// Protocol-wide configuration. Identity fields (admin, mints, vault and
/// fee-destination addresses) are the ledger's concern and are not part
/// of the engine's state.
#[derive(Clone, Copy, Debug, PartialEq, Eq)]
pub struct Config {
    /// Trading fee in basis points.
    pub fee_bps: u16,
    /// Liquidation fee in basis points.
    pub liq_fee_bps: u16,
    /// Creator reward share in basis points.
    pub creator_reward_bps: u16,
    /// Emergency pause flag for the whole protocol.
    pub paused: bool,
    /// Maximum open positions per user.
    pub max_positions_per_user: u32,
    /// Maximum open positions protocol-wide.
    pub max_total_positions: u32,
    /// Auto-pause threshold in raw units.
    pub emergency_pause_threshold: u64,
    /// Price-movement threshold for the oracle circuit breaker.
    pub circuit_breaker_threshold_bps: u64,
}

impl Config {
    /// Parameter bounds that `initialize_config` enforces.
    pub open spec fn wf(self) -> bool {
        &&& self.fee_bps <= 1000
        &&& self.liq_fee_bps <= 2000
        &&& self.creator_reward_bps <= 5000
    }
}

/// One tradable symbol with its risk parameters and aggregate open
/// interest.
#[derive(Clone, Copy, Debug, PartialEq, Eq)]
pub struct Market {
    /// Market symbol, zero-padded.
    pub symbol: [u8; 12],
    /// Base token decimal places.
    pub base_decimals: u8,
    /// Base token reserves of the AMM, fixed point.
    pub amm_base_reserve_fp: u128,
    /// Quote token reserves of the AMM, fixed point.
    pub amm_quote_reserve_fp: u128,
    /// Current funding rate, fixed point.
    pub funding_rate_fp: i128,
    /// Timestamp of the last funding settlement.
    pub last_funding_ts: i64,
    /// Cumulative funding accrued to longs, fixed point.
    pub cumulative_funding_long_fp: i128,
    /// Cumulative funding accrued to shorts, fixed point.
    pub cumulative_funding_short_fp: i128,
    /// Skew strength in basis points.
    pub skew_k_bps: u32,
    /// Maximum position size in base units.
    pub max_position_base: u64,
    /// Maintenance margin requirement in basis points.
    pub maintenance_margin_bps: u16,
    /// Maximum leverage multiplier for takers.
    pub taker_leverage_cap_x: u16,
    /// Total long open interest in base units.
    pub total_long_size: u64,
    /// Total short open interest in base units.
    pub total_short_size: u64,
    /// Total traded volume in quote units.
    pub total_volume: u128,
    /// Market-specific pause flag.
    pub is_paused: bool,
    /// Maximum allowed funding rate, fixed point.
    pub max_funding_rate_fp: i128,
    /// Maximum allowed skew ratio.
    pub max_skew_ratio: u32,
}

impl Market {
    /// Parameter bounds that `create_market` enforces: the maintenance
    /// requirement never exceeds the whole notional, and the position cap
    /// stays representable as a signed size.
    pub open spec fn wf(self) -> bool {
        &&& self.maintenance_margin_bps <= 10_000
        &&& self.max_position_base <= i64::MAX
    }

    /// Long-to-short open-interest ratio in basis points, saturated at
    /// `u32::MAX`; all longs against no shorts reads as the maximum.
    pub open spec fn spec_skew_ratio(self) -> u32 {
        if self.total_short_size == 0 {
            u32::MAX
        } else if self.total_long_size * 10_000 / (self.total_short_size as int) > u32::MAX {
            u32::MAX
        } else {
            (self.total_long_size * 10_000 / (self.total_short_size as int)) as u32
        }
    }

    /// Current skew ratio in basis points.
    pub fn skew_ratio(&self) -> (r: u32)
        ensures
            r == self.spec_skew_ratio(),
    {
        if self.total_short_size == 0 {
            return u32::MAX;
        }
        let num: u128 = (self.total_long_size as u128) * 10_000;
        let q: u128 = num / (self.total_short_size as u128);
        if q > u32::MAX as u128 {
            u32::MAX
        } else {
            q as u32
        }
    }

    /// Whether open interest is balanced: skew between half and one and a
    /// half times.
    pub fn is_balanced(&self) -> (r: bool)
        ensures
            r == (5_000 <= self.spec_skew_ratio() <= 15_000),
    {
        let skew: u32 = self.skew_ratio();
        skew >= 5_000 && skew <= 15_000
    }
}

/// One position per (owner, market) pair; a position with `base_size == 0`
/// is logically closed though the record may persist.
#[derive(Clone, Copy, Debug, PartialEq, Eq)]
pub struct UserPosition {
    /// Direction of the position.
    pub is_long: bool,
    /// Signed size in base units: positive for long, negative for short.
    pub base_size: i64,
    /// Entry price, fixed point.
    pub entry_price_fp: u128,
    /// Collateral deposited, raw units.
    pub margin_deposited: u64,
    /// Timestamp of the last funding settlement for this position.
    pub last_funding_settled: i64,
    /// Accumulated funding debt, fixed point.
    pub funding_debt_fp: i128,
    /// Cached liquidation price, recomputed on mutation, fixed point.
    pub liquidation_price_fp: u128,
    /// Timestamp of the last mutation.
    pub last_updated_ts: i64,
    /// Realized profit and loss accumulated over the position's life.
    pub realized_pnl_fp: i128,
    /// Fees paid over the position's life, raw units.
    pub total_fees_paid: u64,
}

impl UserPosition {
    /// Sign consistency: whenever the position is open, the sign of
    /// `base_size` matches `is_long`.
    pub open spec fn wf(self) -> bool {
        self.base_size != 0 ==> (self.is_long <==> self.base_size > 0)
    }

    /// Magnitude of the position size.
    pub open spec fn abs_base(self) -> int {
        if self.base_size >= 0 {
            self.base_size as int
        } else {
            -(self.base_size as int)
        }
    }

    /// Exposure at the given price: size times price, fixed point.
    pub open spec fn spec_notional_fp(self, price_fp: u128) -> int {
        self.abs_base() * price_fp
    }

    /// Unrealized profit and loss at the given price, fixed point: zero for
    /// a closed position, otherwise the signed difference between exit and
    /// entry notional.
    pub open spec fn spec_unrealized_pnl_fp(self, price_fp: u128) -> int {
        if self.base_size == 0 {
            0
        } else if self.is_long {
            self.abs_base() * price_fp - self.abs_base() * self.entry_price_fp
        } else {
            self.abs_base() * self.entry_price_fp - self.abs_base() * price_fp
        }
    }

    /// Equity at the given price, fixed point: margin plus unrealized
    /// profit and loss minus funding debt.
    pub open spec fn spec_equity_fp(self, price_fp: u128) -> int {
        self.margin_deposited * FP + self.spec_unrealized_pnl_fp(price_fp)
            - self.funding_debt_fp
    }

    /// Maintenance margin required at the given price, fixed point.
    pub open spec fn spec_maintenance_required_fp(self, price_fp: u128, maintenance_margin_bps: u16) -> int {
        self.spec_notional_fp(price_fp) * maintenance_margin_bps / 10_000
    }

    /// The exact liquidation trigger: an open position whose equity is
    /// below the maintenance requirement.
    pub open spec fn spec_is_liquidatable(self, price_fp: u128, maintenance_margin_bps: u16) -> bool {
        self.base_size != 0 && self.spec_equity_fp(price_fp)
            < self.spec_maintenance_required_fp(price_fp, maintenance_margin_bps)
    }

    /// The profit-and-loss terms fit in the machine width.
    pub open spec fn pnl_fits(self, price_fp: u128) -> bool {
        &&& self.abs_base() * price_fp <= i128::MAX
        &&& self.abs_base() * self.entry_price_fp <= i128::MAX
    }

    /// The whole equity computation fits in the machine width, including
    /// the intermediate sum of margin and unrealized profit and loss.
    pub open spec fn equity_fits(self, price_fp: u128) -> bool {
        &&& self.pnl_fits(price_fp)
        &&& self.margin_deposited * FP + self.spec_unrealized_pnl_fp(price_fp) <= i128::MAX
        &&& i128::MIN <= self.spec_equity_fp(price_fp) <= i128::MAX
    }

    /// Every product and sum of the valuer fits in the machine width. The
    /// factor of ten thousand covers any basis-point weight up to one
    /// hundred percent.
    pub open spec fn valuation_fits(self, price_fp: u128) -> bool {
        &&& self.equity_fits(price_fp)
        &&& self.abs_base() * price_fp * 10_000 <= u128::MAX
    }

    /// Magnitude of the position size in base units.
    pub fn abs_base_units(&self) -> (r: u64)
        ensures
            r == self.abs_base(),
    {
        let wide: i128 = self.base_size as i128;
        if wide >= 0 {
            wide as u64
        } else {
            (-wide) as u64
        }
    }

    /// Whether every quantity the valuer computes at this price fits in
    /// the machine width; operations fail with a math error where not.
    pub fn valuation_in_range(&self, price_fp: u128) -> (r: bool)
        ensures
            r == self.valuation_fits(price_fp),
    {
        let abs: u64 = self.abs_base_units();
        let exit: Option<u128> = (abs as u128).checked_mul(price_fp);
        let entry: Option<u128> = (abs as u128).checked_mul(self.entry_price_fp);
        let (exit_n, entry_n) = match (exit, entry) {
            (Some(x), Some(e)) => {
                if x > i128::MAX as u128 || e > i128::MAX as u128 {
                    return false;
                }
                (x, e)
            },
            _ => { return false; },
        };
        if exit_n.checked_mul(10_000).is_none() {
            return false;
        }
        let pnl: i128 = if self.base_size == 0 {
            0
        } else if self.is_long {
            (exit_n as i128) - (entry_n as i128)
        } else {
            (entry_n as i128) - (exit_n as i128)
        };
        let margin_fp: i128 = (self.margin_deposited as i128) * (FP as i128);
        let partial: i128 = match margin_fp.checked_add(pnl) {
            Some(p) => p,
            None => { return false; },
        };
        partial.checked_sub(self.funding_debt_fp).is_some()
    }

    /// Unrealized profit and loss at the given price, fixed point.
    pub fn unrealized_pnl_fp(&self, current_price_fp: u128) -> (pnl: i128)
        requires
            self.pnl_fits(current_price_fp),
        ensures
            pnl == self.spec_unrealized_pnl_fp(current_price_fp),
    {
        if self.base_size == 0 {
            return 0;
        }
        let abs: u64 = self.abs_base_units();
        let exit_notional: u128 = (abs as u128) * current_price_fp;
        let entry_notional: u128 = (abs as u128) * self.entry_price_fp;
        if self.is_long {
            (exit_notional as i128) - (entry_notional as i128)
        } else {
            (entry_notional as i128) - (exit_notional as i128)
        }
    }

    /// Equity at the given price, fixed point.
    pub fn equity_fp(&self, current_price_fp: u128) -> (equity: i128)
        requires
            self.equity_fits(current_price_fp),
        ensures
            equity == self.spec_equity_fp(current_price_fp),
    {
        let margin_fp: i128 = (self.margin_deposited as i128) * (FP as i128);
        let unrealized_pnl: i128 = self.unrealized_pnl_fp(current_price_fp);
        margin_fp + unrealized_pnl - self.funding_debt_fp
    }

    /// Whether the position is liquidatable at the given price.
    pub fn is_liquidatable(&self, current_price_fp: u128, maintenance_margin_bps: u16) -> (r: bool)
        requires
            self.valuation_fits(current_price_fp),
            maintenance_margin_bps <= 10_000,
        ensures
            r == self.spec_is_liquidatable(current_price_fp, maintenance_margin_bps),
    {
        if self.base_size == 0 {
            return false;
        }
        let equity: i128 = self.equity_fp(current_price_fp);
        let abs: u64 = self.abs_base_units();
        let notional_fp: u128 = (abs as u128) * current_price_fp;
        proof {
            lemma_mul_inequality(maintenance_margin_bps as int, 10_000, notional_fp as int);
            assert(notional_fp * (maintenance_margin_bps as int) == (maintenance_margin_bps as int)
                * notional_fp) by (nonlinear_arith);
            assert(notional_fp * 10_000 == 10_000 * notional_fp) by (nonlinear_arith);
        }
        let maintenance_required_fp: u128 = notional_fp * (maintenance_margin_bps as u128)
            / 10_000;
        proof {
            lemma_maintenance_fits(self.abs_base() * current_price_fp, maintenance_margin_bps as int);
        }
        equity < maintenance_required_fp as i128
    }
}

/// The maintenance requirement never exceeds the notional it is taken
/// from, so it fits wherever the notional fits.
proof fn lemma_maintenance_fits(notional: int, bps: int)
    requires
        0 <= notional <= i128::MAX,
        0 <= bps <= 10_000,
    ensures
        0 <= notional * bps / 10_000 <= notional,
{
    lemma_mul_inequality(bps, 10_000, notional);
    assert(notional * bps == bps * notional) by (nonlinear_arith);
    assert(notional * 10_000 == 10_000 * notional) by (nonlinear_arith);
    lemma_div_is_ordered(notional * bps, notional * 10_000, 10_000);
    vstd::arithmetic::div_mod::lemma_div_multiples_vanish(notional, 10_000);
    vstd::arithmetic::div_mod::lemma_div_pos_is_pos(notional * bps, 10_000);
    vstd::arithmetic::mul::lemma_mul_nonnegative(notional, bps);
}

/// Dropping a nonnegative value by `d` drops its basis-point weighted
/// floor by at most `d`.
proof fn lemma_weighted_floor_step(a: int, b: int, k: int)
    requires
        0 <= b <= a,
        0 <= k <= 10_000,
    ensures
        a * k / 10_000 - b * k / 10_000 <= a - b,
{
    assert(a * k == b * k + (a - b) * k) by (nonlinear_arith);
    lemma_mul_inequality(k, 10_000, a - b);
    assert((a - b) * k == k * (a - b)) by (nonlinear_arith);
    assert((a - b) * 10_000 == 10_000 * (a - b)) by (nonlinear_arith);
    lemma_div_is_ordered(a * k, b * k + (a - b) * 10_000, 10_000);
    lemma_hoist_over_denominator(b * k, a - b, 10_000nat);
}

/// A position's margin can never be negative, whatever sequence of
/// operations produced it: collateral is represented unsigned, and every
/// lifecycle operation's contract pins the new margin exactly, so no
/// accepted operation can drive it below zero.
pub proof fn lemma_no_negative_margin(pos: UserPosition)
    ensures
        pos.margin_deposited >= 0,
{
}

/// Once a position is liquidatable at some price, it stays liquidatable
/// at every price further adverse to its direction: lower for a long,
/// higher for a short.
pub proof fn lemma_liquidation_monotonic(pos: UserPosition, maintenance_margin_bps: u16, price_fp: u128, adverse_price_fp: u128)
    requires
        pos.wf(),
        maintenance_margin_bps <= 10_000,
        pos.is_long ==> adverse_price_fp <= price_fp,
        !pos.is_long ==> adverse_price_fp >= price_fp,
        pos.spec_is_liquidatable(price_fp, maintenance_margin_bps),
    ensures
        pos.spec_is_liquidatable(adverse_price_fp, maintenance_margin_bps),
{
    let s = pos.abs_base();
    let k = maintenance_margin_bps as int;
    assert(s >= 1);
    if pos.is_long {
        lemma_mul_inequality(adverse_price_fp as int, price_fp as int, s);
        assert(s * adverse_price_fp == adverse_price_fp * s) by (nonlinear_arith);
        assert(s * price_fp == price_fp * s) by (nonlinear_arith);
        lemma_weighted_floor_step(s * price_fp, s * adverse_price_fp, k);
    } else {
        lemma_mul_inequality(price_fp as int, adverse_price_fp as int, s);
        assert(s * adverse_price_fp == adverse_price_fp * s) by (nonlinear_arith);
        assert(s * price_fp == price_fp * s) by (nonlinear_arith);
        lemma_mul_inequality(s * price_fp, s * adverse_price_fp, k);
        assert((s * price_fp) * k == k * (s * price_fp)) by (nonlinear_arith);
        assert((s * adverse_price_fp) * k == k * (s * adverse_price_fp)) by (nonlinear_arith);
        lemma_div_is_ordered((s * price_fp) * k, (s * adverse_price_fp) * k, 10_000);
    }
}

/// Current validated price of one symbol.
#[derive(Clone, Copy, Debug, PartialEq, Eq)]
pub struct OraclePrice {
    /// Current price, fixed point.
    pub price_fp: u128,
    /// Timestamp of the last update.
    pub last_updated_ts: i64,
    /// Price confidence interval, fixed point.
    pub confidence_fp: u128,
    /// Number of price publishers behind the value.
    pub num_publishers: u8,
    /// Whether the price is currently valid.
    pub is_valid: bool,
}

/// A standing instruction to close part of a position once price crosses
/// a trigger; one per (owner, market).
#[derive(Clone, Copy, Debug, PartialEq, Eq)]
pub struct StopLossOrder {
    /// Price at which the order triggers, fixed point.
    pub trigger_price_fp: u128,
    /// Percentage of the position to close, one to one hundred.
    pub close_percentage: u8,
    /// Active between creation and execution.
    pub is_active: bool,
    /// Creation timestamp.
    pub created_at: i64,
    /// Execution timestamp, once executed.
    pub executed_at: Option<i64>,
}

impl StopLossOrder {
    /// An active order always carries a close percentage between one and
    /// one hundred; order creation enforces it.
    pub open spec fn wf(self) -> bool {
        self.is_active ==> 1 <= self.close_percentage <= 100
    }
}

/// The reserve pool that absorbs liquidation shortfalls.
#[derive(Clone, Copy, Debug, PartialEq, Eq)]
pub struct InsuranceFund {
    /// Total deposited, monotonically non-decreasing, raw units.
    pub total_deposits: u64,
    /// Total claimed, monotonically non-decreasing, raw units.
    pub total_claims: u64,
}

impl InsuranceFund {
    /// Deposits-to-claims ratio in basis points, saturated at `u64::MAX`;
    /// a fund with no claims reads as the maximum.
    pub open spec fn spec_fund_ratio(self) -> u64 {
        if self.total_claims == 0 {
            u64::MAX
        } else if self.total_deposits * 10_000 / (self.total_claims as int) > u64::MAX {
            u64::MAX
        } else {
            (self.total_deposits * 10_000 / (self.total_claims as int)) as u64
        }
    }

    /// Current deposits-to-claims ratio in basis points.
    pub fn fund_ratio(&self) -> (r: u64)
        ensures
            r == self.spec_fund_ratio(),
    {
        if self.total_claims == 0 {
            return u64::MAX;
        }
        let num: u128 = (self.total_deposits as u128) * 10_000;
        let q: u128 = num / (self.total_claims as u128);
        if q > u64::MAX as u128 {
            u64::MAX
        } else {
            q as u64
        }
    }

    /// Whether the fund is healthy: more than one and a half times as many
    /// deposits as claims. Advisory telemetry, not an enforced gate.
    pub fn is_healthy(&self) -> (r: bool)
        ensures
            r == (self.spec_fund_ratio() > 15_000),
    {
        self.fund_ratio() > 15_000
    }
}

} // verus!
