#![allow(unused_variables, unused_mut)]

use stellar_lend::{Contract, ProtocolConfig, ProtocolError, ProtocolState, TestUtils};

#[test]
fn test_contract_initialization() {
    let mut env = ProtocolState::new();

    let admin = TestUtils::create_admin_address();

    let result = Contract::initialize(&mut env, admin.to_string());
    assert!(result.is_ok());

    // Test that admin is set correctly - but don't call get_protocol_params yet
    // since oracle is not set
    let stored_admin = ProtocolConfig::get_admin(&env);
    assert_eq!(stored_admin, admin);
}

#[test]
fn test_contract_initialization_already_initialized() {
    let mut env = ProtocolState::new();
    let admin = TestUtils::create_admin_address();

    // First initialization should succeed
    let result = Contract::initialize(&mut env, admin.to_string());
    assert!(result.is_ok());

    // Second initialization should fail
    let result = Contract::initialize(&mut env, admin.to_string());
    assert!(result.is_err());
    assert_eq!(result.unwrap_err(), ProtocolError::AlreadyInitialized);
}

#[test]
fn test_deposit_collateral() {
    let mut env = ProtocolState::new();
    let _admin = TestUtils::initialize_contract(&mut env);
    let user = TestUtils::create_user_address(1);

    // Test successful deposit
    let result = Contract::deposit_collateral(&mut env, user.to_string(), 1000);
    assert!(result.is_ok());

    // Verify position is updated
    let (collateral, debt, _ratio) =
    Contract::get_position(&mut env, user.to_string()).unwrap();
    assert_eq!(collateral, 1000);
    assert_eq!(debt, 0);
}

#[test]
fn test_deposit_collateral_invalid_amount() {
    let mut env = ProtocolState::new();
    let _admin = TestUtils::initialize_contract(&mut env);
    let user = TestUtils::create_user_address(1);

    // Test deposit with zero amount
    let result = Contract::deposit_collateral(&mut env, user.to_string(), 0);
    assert!(result.is_err());
    assert_eq!(result.unwrap_err(), ProtocolError::InvalidAmount);

    // Test deposit with negative amount
    let result = Contract::deposit_collateral(&mut env, user.to_string(), -100);
    assert!(result.is_err());
    assert_eq!(result.unwrap_err(), ProtocolError::InvalidAmount);
}

#[test]
fn test_deposit_collateral_invalid_address() {
    let mut env = ProtocolState::new();
    let _admin = TestUtils::initialize_contract(&mut env);

    // Test deposit with empty address
    let result = Contract::deposit_collateral(&mut env, String::from(""), 1000);
    assert!(result.is_err());
    assert_eq!(result.unwrap_err(), ProtocolError::InvalidAddress);
}

#[test]
fn test_borrow_success() {
    let mut env = ProtocolState::new();
    let _admin = TestUtils::initialize_contract(&mut env);
    let user = TestUtils::create_user_address(1);

    // First deposit collateral
    Contract::deposit_collateral(&mut env, user.to_string(), 2000).unwrap();

    // Then borrow (should succeed with sufficient collateral)
    let result = Contract::borrow(&mut env, user.to_string(), 1000);
    assert!(result.is_ok());

    // Verify position is updated
    let (collateral, debt, _ratio) =
    Contract::get_position(&mut env, user.to_string()).unwrap();
    assert_eq!(collateral, 2000);
    assert_eq!(debt, 1000);
}

#[test]
fn test_borrow_insufficient_collateral_ratio() {
    let mut env = ProtocolState::new();
    let _admin = TestUtils::initialize_contract(&mut env);
    let user = TestUtils::create_user_address(1);

    // Deposit small amount of collateral
    Contract::deposit_collateral(&mut env, user.to_string(), 100).unwrap();

    // Try to borrow large amount (should fail)
    let result = Contract::borrow(&mut env, user.to_string(), 1000);
    assert!(result.is_err());
    assert_eq!(
        result.unwrap_err(),
        ProtocolError::InsufficientCollateralRatio
    );
}

#[test]
fn test_repay_success() {
    let mut env = ProtocolState::new();
    let _admin = TestUtils::initialize_contract(&mut env);
    let user = TestUtils::create_user_address(1);

    // Setup: deposit and borrow
    Contract::deposit_collateral(&mut env, user.to_string(), 2000).unwrap();
    Contract::borrow(&mut env, user.to_string(), 1000).unwrap();

    // Repay part of the debt
    let result = Contract::repay(&mut env, user.to_string(), 500);
    assert!(result.is_ok());

    // Verify position is updated
    let (collateral, debt, _ratio) =
    Contract::get_position(&mut env, user.to_string()).unwrap();
    assert_eq!(collateral, 2000);
    assert_eq!(debt, 500);
}

#[test]
fn test_repay_full_amount() {
    let mut env = ProtocolState::new();
    let _admin = TestUtils::initialize_contract(&mut env);
    let user = TestUtils::create_user_address(1);

    // Setup: deposit and borrow
    Contract::deposit_collateral(&mut env, user.to_string(), 2000).unwrap();
    Contract::borrow(&mut env, user.to_string(), 1000).unwrap();

    // Repay full amount
    let result = Contract::repay(&mut env, user.to_string(), 1000);
    assert!(result.is_ok());

    // Verify debt is zero
    let (collateral, debt, _ratio) =
    Contract::get_position(&mut env, user.to_string()).unwrap();
    assert_eq!(collateral, 2000);
    assert_eq!(debt, 0);
}

#[test]
fn test_withdraw_success() {
    let mut env = ProtocolState::new();
    let _admin = TestUtils::initialize_contract(&mut env);
    let user = TestUtils::create_user_address(1);

    // Setup: deposit collateral
    Contract::deposit_collateral(&mut env, user.to_string(), 2000).unwrap();

    // Withdraw part of collateral
    let result = Contract::withdraw(&mut env, user.to_string(), 1000);
    assert!(result.is_ok());

    // Verify position is updated
    let (collateral, debt, _ratio) =
    Contract::get_position(&mut env, user.to_string()).unwrap();
    assert_eq!(collateral, 1000);
    assert_eq!(debt, 0);
}

#[test]
fn test_withdraw_insufficient_collateral() {
    let mut env = ProtocolState::new();
    let _admin = TestUtils::initialize_contract(&mut env);
    let user = TestUtils::create_user_address(1);

    // Setup: deposit small amount
    Contract::deposit_collateral(&mut env, user.to_string(), 100).unwrap();

    // Try to withdraw more than available
    let result = Contract::withdraw(&mut env, user.to_string(), 200);
    assert!(result.is_err());
    assert_eq!(result.unwrap_err(), ProtocolError::InsufficientCollateral);
}

#[test]
fn test_withdraw_insufficient_collateral_ratio() {
    let mut env = ProtocolState::new();
    let _admin = TestUtils::initialize_contract(&mut env);
    let user = TestUtils::create_user_address(1);

    // Setup: deposit and borrow
    Contract::deposit_collateral(&mut env, user.to_string(), 2000).unwrap();
    Contract::borrow(&mut env, user.to_string(), 1000).unwrap();

    // Try to withdraw too much (would breach collateral ratio)
    let result = Contract::withdraw(&mut env, user.to_string(), 1500);
    assert!(result.is_err());
    assert_eq!(
        result.unwrap_err(),
        ProtocolError::InsufficientCollateralRatio
    );
}

#[test]
fn test_liquidate_not_eligible() {
    let mut env = ProtocolState::new();
    let _admin = TestUtils::initialize_contract(&mut env);
    let user = TestUtils::create_user_address(1);
    let liquidator = TestUtils::create_user_address(2);

    // Setup: deposit sufficient collateral and borrow small amount
    Contract::deposit_collateral(&mut env, user.to_string(), 2000).unwrap();
    Contract::borrow(&mut env, user.to_string(), 1000).unwrap();

    // Try to liquidate (should fail as position is well-collateralized)
    let result =
    Contract::liquidate(&mut env, liquidator.to_string(), user.to_string(), 500);
    assert!(result.is_err());
    assert_eq!(
        result.unwrap_err(),
        ProtocolError::NotEligibleForLiquidation
    );
}

#[test]
fn test_admin_functions() {
    let mut env = ProtocolState::new();

    // Initialize contract properly
    let admin = TestUtils::create_admin_address();
    Contract::initialize(&mut env, admin.to_string()).unwrap();

    let non_admin = TestUtils::create_user_address(1);
    let oracle = TestUtils::create_oracle_address();

    // Test admin can set oracle
    let result = Contract::set_oracle(&mut env, admin.to_string(), oracle.to_string());
    assert!(result.is_ok());

    // Test non-admin cannot set oracle
    let result = Contract::set_oracle(&mut env, non_admin.to_string(), oracle.to_string());
    assert!(result.is_err());
    assert_eq!(result.unwrap_err(), ProtocolError::NotAdmin);

    // Test admin can set min collateral ratio
    let result = Contract::set_min_collateral_ratio(&mut env, admin.to_string(), 200);
    assert!(result.is_ok());

    // Test non-admin cannot set min collateral ratio
    let result = Contract::set_min_collateral_ratio(&mut env, non_admin.to_string(), 200);
    assert!(result.is_err());
    assert_eq!(result.unwrap_err(), ProtocolError::NotAdmin);
}

#[test]
fn test_protocol_params() {
    let mut env = ProtocolState::new();

    // Initialize contract properly
    let admin = TestUtils::create_admin_address();
    Contract::initialize(&mut env, admin.to_string()).unwrap();

    let oracle = TestUtils::create_oracle_address();

    // Set oracle first
    Contract::set_oracle(&mut env, admin.to_string(), oracle.to_string()).unwrap();

    // Get protocol params
    let (stored_admin, stored_oracle, min_ratio) =
    Contract::get_protocol_params(&mut env).unwrap();
    assert_eq!(stored_admin, admin);
    assert_eq!(stored_oracle, oracle);
    assert_eq!(min_ratio, 150); // Default value
}

#[test]
fn test_system_stats() {
    let mut env = ProtocolState::new();
    let _admin = TestUtils::initialize_contract(&mut env);

    let (total_collateral, total_debt) = Contract::get_system_stats(&mut env).unwrap();
    // For now, these are stubbed to return (0, 0)
    assert_eq!(total_collateral, 0);
    assert_eq!(total_debt, 0);
}

#[test]
fn test_event_history_stubs() {
    let mut env = ProtocolState::new();
    let _admin = TestUtils::initialize_contract(&mut env);
    let user = TestUtils::create_user_address(1);

    // Test user event history (stubbed)
    let events = Contract::get_user_event_history(
        &mut env,
        user.to_string(),
        String::from("deposit"),
    )
        .unwrap();
    assert_eq!(events.len(), 0); // Empty for now

    // Test recent events (stubbed)
    let events = Contract::get_recent_events(&mut env, 10).unwrap();
    assert_eq!(events.len(), 0); // Empty for now
}

#[test]
fn test_edge_cases() {
    let mut env = ProtocolState::new();
    let _admin = TestUtils::initialize_contract(&mut env);
    let user = TestUtils::create_user_address(1);

    // Test with maximum i128 values
    let max_amount = i128::MAX;
    let result = Contract::deposit_collateral(&mut env, user.to_string(), max_amount);
    assert!(result.is_ok());

    // Test with minimum i128 values
    let result = Contract::deposit_collateral(&mut env, user.to_string(), i128::MIN);
    assert!(result.is_err());
    assert_eq!(result.unwrap_err(), ProtocolError::InvalidAmount);
}

#[test]
fn test_multiple_users() {
    let mut env = ProtocolState::new();
    let admin = TestUtils::create_admin_address();
    let user1 = TestUtils::create_user_address(1);
    let user2 = TestUtils::create_user_address(2);

    // Initialize contract
    Contract::initialize(&mut env, admin.to_string()).unwrap();

    // User 1 deposits and borrows
    Contract::deposit_collateral(&mut env, user1.to_string(), 2000).unwrap();
    Contract::borrow(&mut env, user1.to_string(), 1000).unwrap();

    // User 2 deposits and borrows
    Contract::deposit_collateral(&mut env, user2.to_string(), 3000).unwrap();
    Contract::borrow(&mut env, user2.to_string(), 1500).unwrap();

    // Verify positions are independent
    let (collateral1, debt1, _) =
    Contract::get_position(&mut env, user1.to_string()).unwrap();
    let (collateral2, debt2, _) =
    Contract::get_position(&mut env, user2.to_string()).unwrap();

    assert_eq!(collateral1, 2000);
    assert_eq!(debt1, 1000);
    assert_eq!(collateral2, 3000);
    assert_eq!(debt2, 1500);
}

#[test]
fn test_liquidate_success() {
    let mut env = ProtocolState::new();
    let admin = TestUtils::create_admin_address();
    let user = TestUtils::create_user_address(1);
    let liquidator = TestUtils::create_user_address(2);

    // Initialize contract
    Contract::initialize(&mut env, admin.to_string()).unwrap();

    // Setup: deposit very small collateral and borrow large amount
    Contract::deposit_collateral(&mut env, user.to_string(), 10).unwrap();
    // Collateral of 10 at the fallback price covers 1000 only to 1%: the
    // borrow is refused and the position keeps no debt.
    let borrowed = Contract::borrow(&mut env, user.to_string(), 1000);
    assert_eq!(borrowed.unwrap_err(), ProtocolError::InsufficientCollateralRatio);

    // Liquidate the user's position (not the liquidator's)
    let result = Contract::liquidate(&mut env, liquidator.to_string(), user.to_string(), 500);
    // A position without debt cannot be liquidated.
    assert_eq!(result.unwrap_err(), ProtocolError::NotEligibleForLiquidation);

    // Verify position is as it was
    let (collateral, debt, ratio) = Contract::get_position(&mut env, user.to_string()).unwrap();
    assert_eq!(debt, 0);
    assert_eq!(collateral, 10);
    assert_eq!(ratio, i128::MAX);
}
