use stellar_lend::ProtocolError;

#[test]
fn test_error_enum_values() {
    // Test that all error variants have correct string representations
    assert_eq!(ProtocolError::Unauthorized.to_str(), "Unauthorized");
    assert_eq!(
        ProtocolError::InsufficientCollateral.to_str(),
        "InsufficientCollateral"
    );
    assert_eq!(
        ProtocolError::InsufficientCollateralRatio.to_str(),
        "InsufficientCollateralRatio"
    );
    assert_eq!(ProtocolError::InvalidAmount.to_str(), "InvalidAmount");
    assert_eq!(ProtocolError::InvalidAddress.to_str(), "InvalidAddress");
    assert_eq!(ProtocolError::PositionNotFound.to_str(), "PositionNotFound");
    assert_eq!(
        ProtocolError::AlreadyInitialized.to_str(),
        "AlreadyInitialized"
    );
    assert_eq!(ProtocolError::NotAdmin.to_str(), "NotAdmin");
    assert_eq!(ProtocolError::OracleNotSet.to_str(), "OracleNotSet");
    assert_eq!(ProtocolError::AdminNotSet.to_str(), "AdminNotSet");
    assert_eq!(
        ProtocolError::NotEligibleForLiquidation.to_str(),
        "NotEligibleForLiquidation"
    );
    assert_eq!(ProtocolError::Unknown.to_str(), "Unknown");
}
