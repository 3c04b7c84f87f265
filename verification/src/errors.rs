//! The failures that protocol operations report.

use vstd::prelude::*;

verus! {

/// Why an operation was refused. A refused operation changes nothing unless
/// its contract says otherwise.
#[derive(Clone, Copy, Debug, PartialEq, Eq, Structural)]
pub enum ProtocolError {
    Unauthorized,
    InsufficientCollateral,
    InsufficientCollateralRatio,
    InvalidAmount,
    InvalidAddress,
    PositionNotFound,
    AlreadyInitialized,
    NotAdmin,
    OracleNotSet,
    AdminNotSet,
    NotEligibleForLiquidation,
    ProtocolPaused,
    AssetNotSupported,
    AssetDisabled,
    InvalidAsset,
    Unknown,
    AlreadyExists,
    NotFound,
    InvalidOperation,
    InvalidInput,
}

impl ProtocolError {
    /// The name of the error kind.
    pub open spec fn name(&self) -> &'static str {
        match self {
            ProtocolError::Unauthorized => "Unauthorized",
            ProtocolError::InsufficientCollateral => "InsufficientCollateral",
            ProtocolError::InsufficientCollateralRatio => "InsufficientCollateralRatio",
            ProtocolError::InvalidAmount => "InvalidAmount",
            ProtocolError::InvalidAddress => "InvalidAddress",
            ProtocolError::PositionNotFound => "PositionNotFound",
            ProtocolError::AlreadyInitialized => "AlreadyInitialized",
            ProtocolError::NotAdmin => "NotAdmin",
            ProtocolError::OracleNotSet => "OracleNotSet",
            ProtocolError::AdminNotSet => "AdminNotSet",
            ProtocolError::NotEligibleForLiquidation => "NotEligibleForLiquidation",
            ProtocolError::ProtocolPaused => "ProtocolPaused",
            ProtocolError::AssetNotSupported => "AssetNotSupported",
            ProtocolError::AssetDisabled => "AssetDisabled",
            ProtocolError::InvalidAsset => "InvalidAsset",
            ProtocolError::Unknown => "Unknown",
            ProtocolError::AlreadyExists => "AlreadyExists",
            ProtocolError::NotFound => "NotFound",
            ProtocolError::InvalidOperation => "InvalidOperation",
            ProtocolError::InvalidInput => "InvalidInput",
        }
    }

    /// The number under which the error kind is reported to callers, from 1
    /// in declaration order.
    pub open spec fn number(&self) -> u32 {
        match self {
            ProtocolError::Unauthorized => 1,
            ProtocolError::InsufficientCollateral => 2,
            ProtocolError::InsufficientCollateralRatio => 3,
            ProtocolError::InvalidAmount => 4,
            ProtocolError::InvalidAddress => 5,
            ProtocolError::PositionNotFound => 6,
            ProtocolError::AlreadyInitialized => 7,
            ProtocolError::NotAdmin => 8,
            ProtocolError::OracleNotSet => 9,
            ProtocolError::AdminNotSet => 10,
            ProtocolError::NotEligibleForLiquidation => 11,
            ProtocolError::ProtocolPaused => 12,
            ProtocolError::AssetNotSupported => 13,
            ProtocolError::AssetDisabled => 14,
            ProtocolError::InvalidAsset => 15,
            ProtocolError::Unknown => 16,
            ProtocolError::AlreadyExists => 17,
            ProtocolError::NotFound => 18,
            ProtocolError::InvalidOperation => 19,
            ProtocolError::InvalidInput => 20,
        }
    }

    /// The name of the error kind.
    pub fn to_str(&self) -> (r: &'static str)
        ensures
            r == self.name(),
    {
        match self {
            ProtocolError::Unauthorized => "Unauthorized",
            ProtocolError::InsufficientCollateral => "InsufficientCollateral",
            ProtocolError::InsufficientCollateralRatio => "InsufficientCollateralRatio",
            ProtocolError::InvalidAmount => "InvalidAmount",
            ProtocolError::InvalidAddress => "InvalidAddress",
            ProtocolError::PositionNotFound => "PositionNotFound",
            ProtocolError::AlreadyInitialized => "AlreadyInitialized",
            ProtocolError::NotAdmin => "NotAdmin",
            ProtocolError::OracleNotSet => "OracleNotSet",
            ProtocolError::AdminNotSet => "AdminNotSet",
            ProtocolError::NotEligibleForLiquidation => "NotEligibleForLiquidation",
            ProtocolError::ProtocolPaused => "ProtocolPaused",
            ProtocolError::AssetNotSupported => "AssetNotSupported",
            ProtocolError::AssetDisabled => "AssetDisabled",
            ProtocolError::InvalidAsset => "InvalidAsset",
            ProtocolError::Unknown => "Unknown",
            ProtocolError::AlreadyExists => "AlreadyExists",
            ProtocolError::NotFound => "NotFound",
            ProtocolError::InvalidOperation => "InvalidOperation",
            ProtocolError::InvalidInput => "InvalidInput",
        }
    }

    /// The number of the error kind.
    pub fn code(&self) -> (r: u32)
        ensures
            r == self.number(),
            1 <= r <= 20,
    {
        match self {
            ProtocolError::Unauthorized => 1,
            ProtocolError::InsufficientCollateral => 2,
            ProtocolError::InsufficientCollateralRatio => 3,
            ProtocolError::InvalidAmount => 4,
            ProtocolError::InvalidAddress => 5,
            ProtocolError::PositionNotFound => 6,
            ProtocolError::AlreadyInitialized => 7,
            ProtocolError::NotAdmin => 8,
            ProtocolError::OracleNotSet => 9,
            ProtocolError::AdminNotSet => 10,
            ProtocolError::NotEligibleForLiquidation => 11,
            ProtocolError::ProtocolPaused => 12,
            ProtocolError::AssetNotSupported => 13,
            ProtocolError::AssetDisabled => 14,
            ProtocolError::InvalidAsset => 15,
            ProtocolError::Unknown => 16,
            ProtocolError::AlreadyExists => 17,
            ProtocolError::NotFound => 18,
            ProtocolError::InvalidOperation => 19,
            ProtocolError::InvalidInput => 20,
        }
    }
}

} // verus!
