//! Error taxonomy of the engine.
//!
//! Every precondition is checked eagerly; a failing operation returns one
//! of these variants and leaves all records untouched.

use vstd::prelude::*;

verus! {

/// Every failure the engine can report, grouped by area: math, position,
/// oracle, market, access, risk, token, funding, protocol state, orders.
#[derive(Clone, Copy, Debug, PartialEq, Eq, Structural)]
pub enum PerpsError {
    // Math and calculation errors
    MathOverflow,
    DivisionByZero,
    InvalidFixedPoint,
    // Position errors
    LeverageTooHigh,
    InsufficientMargin,
    MaxPositionExceeded,
    PositionNotFound,
    PositionTooSmall,
    InsufficientMarginForModification,
    PositionAtLiquidation,
    PositionNotLiquidatable,
    InsufficientFunds,
    WouldBeLiquidated,
    InvalidClosePercentage,
    // Oracle and pricing errors
    BadOracle,
    OracleFeedNotFound,
    OraclePriceDeviation,
    OracleConsensusFailure,
    OracleConfidenceLow,
    InvalidPrice,
    // Market errors
    MarketPaused,
    MarketNotFound,
    InvalidMarketParameters,
    InsufficientLiquidity,
    MarketImpactTooHigh,
    // Access control errors
    Unauthorized,
    InvalidSigner,
    InvalidAccountOwner,
    InvalidPDA,
    // Risk management errors
    ExceedsPositionLimits,
    ExceedsRiskLimits,
    CircuitBreakerTriggered,
    EmergencyPauseActive,
    ConcentrationLimitExceeded,
    // Token and account errors
    InsufficientBalance,
    InvalidTokenAccount,
    TokenTransferFailed,
    InvalidTokenMint,
    // Funding and settlement errors
    FundingRateError,
    SettlementError,
    FundingPaymentFailed,
    // Protocol state errors
    ProtocolPaused,
    InvalidProtocolConfig,
    InitializationFailed,
    AlreadyInitialized,
    // Order and stop loss errors
    OrderNotActive,
    InvalidStopLoss,
    StopLossNotTriggered,
    UnauthorizedAccess,
    InvalidParameters,
    UseFullCloseForCompletePosition,
    OrderAlreadyExecuted,
    WouldCauseLiquidation,
    InvalidStopLossCondition,
    StopLossConditionNotMet,
}

impl PerpsError {
    /// The stable numeric code of each variant, grouped in bands of twenty.
    pub open spec fn spec_error_code(self) -> u32 {
        match self {
            PerpsError::MathOverflow => 6000,
            PerpsError::DivisionByZero => 6001,
            PerpsError::InvalidFixedPoint => 6002,
            PerpsError::LeverageTooHigh => 6020,
            PerpsError::InsufficientMargin => 6021,
            PerpsError::MaxPositionExceeded => 6022,
            PerpsError::PositionNotFound => 6023,
            PerpsError::PositionTooSmall => 6024,
            PerpsError::InsufficientMarginForModification => 6025,
            PerpsError::PositionAtLiquidation => 6026,
            PerpsError::PositionNotLiquidatable => 6027,
            PerpsError::InsufficientFunds => 6028,
            PerpsError::WouldBeLiquidated => 6029,
            PerpsError::InvalidClosePercentage => 6030,
            PerpsError::BadOracle => 6040,
            PerpsError::OracleFeedNotFound => 6041,
            PerpsError::OraclePriceDeviation => 6042,
            PerpsError::OracleConsensusFailure => 6043,
            PerpsError::OracleConfidenceLow => 6044,
            PerpsError::InvalidPrice => 6045,
            PerpsError::MarketPaused => 6060,
            PerpsError::MarketNotFound => 6061,
            PerpsError::InvalidMarketParameters => 6062,
            PerpsError::InsufficientLiquidity => 6063,
            PerpsError::MarketImpactTooHigh => 6064,
            PerpsError::Unauthorized => 6080,
            PerpsError::InvalidSigner => 6081,
            PerpsError::InvalidAccountOwner => 6082,
            PerpsError::InvalidPDA => 6083,
            PerpsError::ExceedsPositionLimits => 6100,
            PerpsError::ExceedsRiskLimits => 6101,
            PerpsError::CircuitBreakerTriggered => 6102,
            PerpsError::EmergencyPauseActive => 6103,
            PerpsError::ConcentrationLimitExceeded => 6104,
            PerpsError::InsufficientBalance => 6120,
            PerpsError::InvalidTokenAccount => 6121,
            PerpsError::TokenTransferFailed => 6122,
            PerpsError::InvalidTokenMint => 6123,
            PerpsError::FundingRateError => 6140,
            PerpsError::SettlementError => 6141,
            PerpsError::FundingPaymentFailed => 6142,
            PerpsError::ProtocolPaused => 6160,
            PerpsError::InvalidProtocolConfig => 6161,
            PerpsError::InitializationFailed => 6162,
            PerpsError::AlreadyInitialized => 6163,
            PerpsError::OrderNotActive => 6180,
            PerpsError::InvalidStopLoss => 6181,
            PerpsError::StopLossNotTriggered => 6182,
            PerpsError::UnauthorizedAccess => 6183,
            PerpsError::InvalidParameters => 6184,
            PerpsError::UseFullCloseForCompletePosition => 6185,
            PerpsError::OrderAlreadyExecuted => 6186,
            PerpsError::WouldCauseLiquidation => 6187,
            PerpsError::InvalidStopLossCondition => 6188,
            PerpsError::StopLossConditionNotMet => 6189,
        }
    }

    /// A caller may retry after one of these without operator intervention.
    pub open spec fn spec_is_recoverable(self) -> bool {
        self == PerpsError::BadOracle || self == PerpsError::InsufficientLiquidity
            || self == PerpsError::MarketImpactTooHigh || self == PerpsError::OracleConfidenceLow
    }

    /// These call for an emergency pause rather than a retry.
    pub open spec fn spec_requires_emergency_pause(self) -> bool {
        self == PerpsError::OracleConsensusFailure || self == PerpsError::CircuitBreakerTriggered
            || self == PerpsError::ExceedsRiskLimits
    }

    pub fn to_error_code(&self) -> (code: u32)
        ensures
            code == self.spec_error_code(),
    {
        match self {
            PerpsError::MathOverflow => 6000,
            PerpsError::DivisionByZero => 6001,
            PerpsError::InvalidFixedPoint => 6002,
            PerpsError::LeverageTooHigh => 6020,
            PerpsError::InsufficientMargin => 6021,
            PerpsError::MaxPositionExceeded => 6022,
            PerpsError::PositionNotFound => 6023,
            PerpsError::PositionTooSmall => 6024,
            PerpsError::InsufficientMarginForModification => 6025,
            PerpsError::PositionAtLiquidation => 6026,
            PerpsError::PositionNotLiquidatable => 6027,
            PerpsError::InsufficientFunds => 6028,
            PerpsError::WouldBeLiquidated => 6029,
            PerpsError::InvalidClosePercentage => 6030,
            PerpsError::BadOracle => 6040,
            PerpsError::OracleFeedNotFound => 6041,
            PerpsError::OraclePriceDeviation => 6042,
            PerpsError::OracleConsensusFailure => 6043,
            PerpsError::OracleConfidenceLow => 6044,
            PerpsError::InvalidPrice => 6045,
            PerpsError::MarketPaused => 6060,
            PerpsError::MarketNotFound => 6061,
            PerpsError::InvalidMarketParameters => 6062,
            PerpsError::InsufficientLiquidity => 6063,
            PerpsError::MarketImpactTooHigh => 6064,
            PerpsError::Unauthorized => 6080,
            PerpsError::InvalidSigner => 6081,
            PerpsError::InvalidAccountOwner => 6082,
            PerpsError::InvalidPDA => 6083,
            PerpsError::ExceedsPositionLimits => 6100,
            PerpsError::ExceedsRiskLimits => 6101,
            PerpsError::CircuitBreakerTriggered => 6102,
            PerpsError::EmergencyPauseActive => 6103,
            PerpsError::ConcentrationLimitExceeded => 6104,
            PerpsError::InsufficientBalance => 6120,
            PerpsError::InvalidTokenAccount => 6121,
            PerpsError::TokenTransferFailed => 6122,
            PerpsError::InvalidTokenMint => 6123,
            PerpsError::FundingRateError => 6140,
            PerpsError::SettlementError => 6141,
            PerpsError::FundingPaymentFailed => 6142,
            PerpsError::ProtocolPaused => 6160,
            PerpsError::InvalidProtocolConfig => 6161,
            PerpsError::InitializationFailed => 6162,
            PerpsError::AlreadyInitialized => 6163,
            PerpsError::OrderNotActive => 6180,
            PerpsError::InvalidStopLoss => 6181,
            PerpsError::StopLossNotTriggered => 6182,
            PerpsError::UnauthorizedAccess => 6183,
            PerpsError::InvalidParameters => 6184,
            PerpsError::UseFullCloseForCompletePosition => 6185,
            PerpsError::OrderAlreadyExecuted => 6186,
            PerpsError::WouldCauseLiquidation => 6187,
            PerpsError::InvalidStopLossCondition => 6188,
            PerpsError::StopLossConditionNotMet => 6189,
        }
    }

    pub fn is_recoverable(&self) -> (r: bool)
        ensures
            r == self.spec_is_recoverable(),
    {
        match self {
            PerpsError::BadOracle
            | PerpsError::InsufficientLiquidity
            | PerpsError::MarketImpactTooHigh
            | PerpsError::OracleConfidenceLow => true,
            _ => false,
        }
    }

    pub fn requires_emergency_pause(&self) -> (r: bool)
        ensures
            r == self.spec_requires_emergency_pause(),
    {
        match self {
            PerpsError::OracleConsensusFailure
            | PerpsError::CircuitBreakerTriggered
            | PerpsError::ExceedsRiskLimits => true,
            _ => false,
        }
    }
}

} // verus!
