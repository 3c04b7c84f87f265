#![allow(unused_variables, unused_mut)]

use stellar_lend::{
    approve_proposal, reject_proposal, ConfigTestUtils, ConfigurationManager,
    ConfigurationStorage, ConfigurationValidator, ConfigurationVersion, Contract,
    ProposalStatus, ProtocolState, TestUtils,
};

#[test]
fn test_configuration_version_creation() {
    let mut env = ProtocolState::new();

    let admin = TestUtils::create_admin_address();
    let timestamp = env.timestamp;

    let version = ConfigurationVersion {
        version: 1,
        created_at: timestamp,
        created_by: admin.clone(),
        description: String::from("Test version"),
        is_active: true,
    };

    assert_eq!(version.version, 1);
    assert_eq!(version.created_at, timestamp);
    assert_eq!(version.created_by, admin);
    assert_eq!(version.description, String::from("Test version"));
    assert!(version.is_active);
}

#[test]
fn test_configuration_storage_operations() {
    let mut env = ProtocolState::new();

    let config = ConfigTestUtils::create_test_protocol_config(&mut env);

    // Test saving and retrieving current configuration
    ConfigurationStorage::save_current_config(&mut env, &config);
    let retrieved_config = ConfigurationStorage::get_current_config(&mut env).unwrap();

    assert_eq!(retrieved_config.version.version, config.version.version);
    assert_eq!(retrieved_config.interest_config.base_rate, config.interest_config.base_rate);
    assert_eq!(retrieved_config.risk_config.close_factor, config.risk_config.close_factor);

    // Test saving to history
    ConfigurationStorage::save_config_to_history(&mut env, &config);
    let history = ConfigurationStorage::get_config_history(&mut env);
    assert!(!history.is_empty());
    assert_eq!(history.get(0).unwrap().version.version, config.version.version);
}

#[test]
fn test_configuration_validator() {
    let mut env = ProtocolState::new();

    let mut config = ConfigTestUtils::create_test_protocol_config(&mut env);

    // Test valid configuration
    let validation = ConfigurationValidator::validate_configuration(&config);
    assert!(validation.is_valid);
    assert!(validation.errors.is_empty());

    // Test invalid interest rate configuration
    config.interest_config.base_rate = -1; // Invalid negative rate
    let validation = ConfigurationValidator::validate_configuration(&config);
    assert!(!validation.is_valid);
    assert!(!validation.errors.is_empty());

    // Test invalid risk configuration
    config = ConfigTestUtils::create_test_protocol_config(&mut env);
    config.risk_config.close_factor = 101_000_000; // > 100%
    let validation = ConfigurationValidator::validate_configuration(&config);
    assert!(!validation.is_valid);
    assert!(!validation.errors.is_empty());
}

#[test]
fn test_configuration_storage_counters() {
    let mut env = ProtocolState::new();

    // Test version counter
    let initial_version = ConfigurationStorage::get_next_version(&mut env);
    assert_eq!(initial_version, 1);

    let next_version = ConfigurationStorage::get_next_version(&mut env);
    assert_eq!(next_version, 2);

    // Test backup ID counter
    let initial_backup_id = ConfigurationStorage::get_next_backup_id(&mut env);
    assert_eq!(initial_backup_id, 1);

    let next_backup_id = ConfigurationStorage::get_next_backup_id(&mut env);
    assert_eq!(next_backup_id, 2);

    // Test proposal ID counter
    let initial_proposal_id = ConfigurationStorage::get_next_proposal_id(&mut env);
    assert_eq!(initial_proposal_id, 1);

    let next_proposal_id = ConfigurationStorage::get_next_proposal_id(&mut env);
    assert_eq!(next_proposal_id, 2);
}

#[test]
fn test_configuration_unauthorized_access() {
    let mut env = ProtocolState::new();

    let admin = TestUtils::create_admin_address();
    let non_admin = TestUtils::create_user_address(0);

    // Create initial configuration
    let initial_config = ConfigTestUtils::create_test_protocol_config(&mut env);
    ConfigurationStorage::save_current_config(&mut env, &initial_config);

    // Test unauthorized configuration creation
    let description = String::from("Unauthorized config");
    let interest_config = ConfigTestUtils::create_test_interest_config();
    let risk_config = ConfigTestUtils::create_test_risk_config();
    let oracle_config = ConfigTestUtils::create_test_oracle_config();
    let protocol_params = ConfigTestUtils::create_test_protocol_params();
    let asset_configs = Vec::new();

    let result = ConfigurationManager::create_configuration(
        &mut env,
        &non_admin, // Non-admin user
        &description,
        interest_config,
        risk_config,
        oracle_config,
        protocol_params,
        asset_configs,
    );

    assert!(result.is_err());

    // Test unauthorized backup creation
    let backup_result = ConfigurationManager::create_backup(
        &mut env,
        &non_admin,
        &description,
    );
    assert!(backup_result.is_err());

    // Test unauthorized proposal approval
    let approve_result = ConfigurationManager::approve_proposal(
        &mut env,
        &non_admin,
        1,
    );
    assert!(approve_result.is_err());
}

#[test]
fn test_configuration_integration_with_contract() {
    let mut env = ProtocolState::new();

    let admin = TestUtils::create_admin_address();

    // Initialize contract
    Contract::initialize(&mut env, admin.to_string()).unwrap();

    // Test contract-level configuration creation
    let description = String::from("Contract config");
    let interest_config = (2_000_000, 80_000_000, 10_000_000, 10_000_000, 50_000_000, 100_000);
    let risk_config = (50_000_000, 5_000_000, false, false, false, false);
    let oracle_config = (admin.to_string(), 10_000_000, 3600, 100_000_000, true);
    let protocol_params = (150, admin.to_string(), 86400, false, 10);
    let asset_configs = Vec::new();

    let result = Contract::create_configuration(
        &mut env,
        admin.to_string(),
        description,
        interest_config,
        risk_config,
        oracle_config,
        protocol_params,
        asset_configs,
    );

    assert!(result.is_ok());
    let version = result.unwrap();
    assert_eq!(version, 1);

    // Test getting current configuration version
    let current_version = Contract::get_current_config_version(&mut env).unwrap();
    assert_eq!(current_version, 1);

    // Test getting configuration history
    let history = Contract::get_config_history(&mut env);
    assert_eq!(history.len(), 1);
    assert_eq!(history.get(0).unwrap(), &1);
}

#[test]
fn test_configuration_backup_integration() {
    let mut env = ProtocolState::new();

    let admin = TestUtils::create_admin_address();

    // Initialize contract
    Contract::initialize(&mut env, admin.to_string()).unwrap();

    // Create initial configuration
    let description = String::from("Initial config");
    let interest_config = (2_000_000, 80_000_000, 10_000_000, 10_000_000, 50_000_000, 100_000);
    let risk_config = (50_000_000, 5_000_000, false, false, false, false);
    let oracle_config = (admin.to_string(), 10_000_000, 3600, 100_000_000, true);
    let protocol_params = (150, admin.to_string(), 86400, false, 10);
    let asset_configs = vec![(
            String::from("XLM"),
            7,
            admin.to_string(),
            150,
            interest_config,
            risk_config,
            true,
            true,
    )];

    Contract::create_configuration(
        &mut env,
        admin.to_string(),
        description,
        interest_config,
        risk_config,
        oracle_config,
        protocol_params,
        asset_configs,
    ).unwrap();

    // Create backup
    let backup_description = String::from("Backup config");
    let backup_result = Contract::create_config_backup(
        &mut env,
        admin.to_string(),
        backup_description,
    );

    assert!(backup_result.is_ok());
    let backup_id = backup_result.unwrap();
    assert_eq!(backup_id, 1);

    // Restore from backup
    let restore_result = Contract::restore_config_backup(
        &mut env,
        admin.to_string(),
        backup_id,
    );

    assert!(restore_result.is_ok());
    let restored_version = restore_result.unwrap();
    assert_eq!(restored_version, 2); // Should be new version
}

#[test]
fn test_configuration_proposal_integration() {
    let mut env = ProtocolState::new();

    let admin = TestUtils::create_admin_address();

    // Initialize contract
    Contract::initialize(&mut env, admin.to_string()).unwrap();

    // Create initial configuration
    let description = String::from("Initial config");
    let interest_config = (2_000_000, 80_000_000, 10_000_000, 10_000_000, 50_000_000, 100_000);
    let risk_config = (50_000_000, 5_000_000, false, false, false, false);
    let oracle_config = (admin.to_string(), 10_000_000, 3600, 100_000_000, true);
    let protocol_params = (150, admin.to_string(), 86400, false, 10);
    let asset_configs = vec![(
            String::from("XLM"),
            7,
            admin.to_string(),
            150,
            interest_config,
            risk_config,
            true,
            true,
    )];

    Contract::create_configuration(
        &mut env,
        admin.to_string(),
        description,
        interest_config,
        risk_config,
        oracle_config.clone(),
        protocol_params.clone(),
        asset_configs.clone(),
    ).unwrap();

    // Create proposal
    let proposal_description = String::from("Proposal config");
    let new_interest_config = (3_000_000, 80_000_000, 10_000_000, 10_000_000, 50_000_000, 100_000);
    let proposal_result = Contract::create_config_proposal(
        &mut env,
        admin.to_string(),
        proposal_description,
        3600, // 1 hour expiration
        new_interest_config,
        risk_config,
        oracle_config.clone(),
        protocol_params.clone(),
        asset_configs.clone(),
    );

    assert!(proposal_result.is_ok());
    let proposal_id = proposal_result.unwrap();
    assert_eq!(proposal_id, 1);

    // Approve proposal
    let approve_result = Contract::approve_config_proposal(
        &mut env,
        admin.to_string(),
        proposal_id,
    );

    assert!(approve_result.is_ok());
    let approved_version = approve_result.unwrap();
    assert_eq!(approved_version, 2); // Should be new version

    // Test rejecting proposal
    let new_proposal_result = Contract::create_config_proposal(
        &mut env,
        admin.to_string(),
        String::from("Reject proposal"),
        3600,
        interest_config,
        risk_config,
        oracle_config,
        protocol_params,
        asset_configs,
    ).unwrap();

    let reject_result = Contract::reject_config_proposal(
        &mut env,
        admin.to_string(),
        new_proposal_result,
    );

    assert!(reject_result.is_ok());
}

#[test]
fn test_configuration_validation_integration() {
    let mut env = ProtocolState::new();

    let admin = TestUtils::create_admin_address();

    // Initialize contract
    Contract::initialize(&mut env, admin.to_string()).unwrap();

    // Test valid configuration validation
    let interest_config = (2_000_000, 80_000_000, 10_000_000, 10_000_000, 50_000_000, 100_000);
    let risk_config = (50_000_000, 5_000_000, false, false, false, false);
    let oracle_config = (admin.to_string(), 10_000_000, 3600, 100_000_000, true);
    let protocol_params = (150, admin.to_string(), 86400, false, 10);
    let asset_configs = Vec::new();

    let validation_result = Contract::validate_config_params(
        &mut env,
        interest_config,
        risk_config,
        oracle_config.clone(),
        protocol_params.clone(),
        asset_configs.clone(),
    );

    assert!(validation_result.is_ok());
    let (is_valid, errors, _warnings) = validation_result.unwrap();
    assert!(is_valid);
    assert!(errors.is_empty());

    // Test invalid configuration validation
    let invalid_interest_config = (-1, 80_000_000, 10_000_000, 10_000_000, 50_000_000, 100_000);
    let invalid_validation_result = Contract::validate_config_params(
        &mut env,
        invalid_interest_config,
        risk_config,
        oracle_config,
        protocol_params,
        asset_configs,
    );

    assert!(invalid_validation_result.is_ok());
    let (is_valid, errors, warnings) = invalid_validation_result.unwrap();
    assert!(!is_valid);
    assert!(!errors.is_empty());
}

#[test]
fn test_configuration_manager_create() {
    let mut env = ProtocolState::new();
    TestUtils::initialize_contract(&mut env);

    let admin = TestUtils::create_admin_address();
    let description = String::from("Initial configuration");
    let interest_config = ConfigTestUtils::create_test_interest_config();
    let risk_config = ConfigTestUtils::create_test_risk_config();
    let oracle_config = ConfigTestUtils::create_test_oracle_config();
    let protocol_params = ConfigTestUtils::create_test_protocol_params();
    let asset_configs = Vec::new();

    let result = ConfigurationManager::create_configuration(
        &mut env,
        &admin,
        &description,
        interest_config,
        risk_config,
        oracle_config,
        protocol_params,
        asset_configs,
    );

    assert!(result.is_ok());
    let config = result.unwrap();
    assert_eq!(config.version.version, 1);
    assert_eq!(config.version.description, description);
    assert_eq!(config.version.created_by, admin);
    assert!(config.version.is_active);
}

#[test]
fn test_configuration_backup_and_restore() {
    let mut env = ProtocolState::new();
    TestUtils::initialize_contract(&mut env);

    let admin = TestUtils::create_admin_address();

    // Create and save initial configuration
    let initial_config = ConfigTestUtils::create_test_protocol_config(&mut env);
    ConfigurationStorage::save_current_config(&mut env, &initial_config);

    // Create backup
    let backup_description = String::from("Backup before major changes");
    let backup_result = ConfigurationManager::create_backup(
        &mut env,
        &admin,
        &backup_description,
    );

    assert!(backup_result.is_ok());
    let backup = backup_result.unwrap();
    assert_eq!(backup.backup_id, 1);
    assert_eq!(backup.description, backup_description);
    assert_eq!(backup.created_by, admin);
    assert_eq!(backup.configuration.version.version, initial_config.version.version);

    // Modify configuration
    let mut modified_config = initial_config.clone();
    modified_config.interest_config.base_rate = 5_000_000; // 5%
    ConfigurationStorage::save_current_config(&mut env, &modified_config);

    // Restore from backup
    let restore_result = ConfigurationManager::restore_from_backup(
        &mut env,
        &admin,
        backup.backup_id,
    );

    assert!(restore_result.is_ok());
    let restored_config = restore_result.unwrap();
    assert_eq!(restored_config.interest_config.base_rate, initial_config.interest_config.base_rate);
    assert_eq!(restored_config.version.version, 2); // Should be new version
    assert_eq!(restored_config.version.description, String::from("Restored from backup"));
}

#[test]
fn test_configuration_proposal_lifecycle() {
    let mut env = ProtocolState::new();
    TestUtils::initialize_contract(&mut env);

    let admin = TestUtils::create_admin_address();

    // Create initial configuration
    let initial_config = ConfigTestUtils::create_test_protocol_config(&mut env);
    ConfigurationStorage::save_current_config(&mut env, &initial_config);

    // Create proposal
    let proposal_description = String::from("Proposal to increase rates");
    let mut proposed_config = initial_config.clone();
    proposed_config.interest_config.base_rate = 4_000_000; // 4%

    let proposal_result = ConfigurationManager::create_proposal(
        &mut env,
        &admin,
        &proposal_description,
        proposed_config,
        3600, // 1 hour expiration
    );

    assert!(proposal_result.is_ok());
    let proposal = proposal_result.unwrap();
    assert_eq!(proposal.proposal_id, 1);
    assert_eq!(proposal.status, ProposalStatus::Pending);
    assert_eq!(proposal.description, proposal_description);
    assert_eq!(proposal.current_version, 1);

    // Approve proposal
    let approve_result = ConfigurationManager::approve_proposal(
        &mut env,
        &admin,
        proposal.proposal_id,
    );

    assert!(approve_result.is_ok());
    let applied_config = approve_result.unwrap();
    assert_eq!(applied_config.interest_config.base_rate, 4_000_000);
    assert_eq!(applied_config.version.version, 2);

    // Verify proposal status changed
    let updated_proposal = ConfigurationStorage::get_proposal(&mut env, proposal.proposal_id).unwrap();
    assert_eq!(updated_proposal.status, ProposalStatus::Approved);
}

#[test]
fn test_configuration_proposal_rejection() {
    let mut env = ProtocolState::new();
    TestUtils::initialize_contract(&mut env);

    let admin = TestUtils::create_admin_address();

    // Create initial configuration
    let initial_config = ConfigTestUtils::create_test_protocol_config(&mut env);
    ConfigurationStorage::save_current_config(&mut env, &initial_config);

    // Create proposal
    let proposed_config = ConfigTestUtils::create_test_protocol_config(&mut env);
    let proposal = ConfigurationManager::create_proposal(
        &mut env,
        &admin,
        &String::from("Proposal to reject"),
        proposed_config,
        3600,
    ).unwrap();

    // Reject proposal
    let reject_result = ConfigurationManager::reject_proposal(
        &mut env,
        &admin,
        proposal.proposal_id,
    );

    assert!(reject_result.is_ok());

    // Verify proposal status changed
    let rejected_proposal = ConfigurationStorage::get_proposal(&mut env, proposal.proposal_id).unwrap();
    assert_eq!(rejected_proposal.status, ProposalStatus::Rejected);
}

#[test]
fn test_configuration_proposal_expiration() {
    let mut env = ProtocolState::new();
    TestUtils::initialize_contract(&mut env);

    let admin = TestUtils::create_admin_address();

    // Create initial configuration
    let initial_config = ConfigTestUtils::create_test_protocol_config(&mut env);
    ConfigurationStorage::save_current_config(&mut env, &initial_config);

    // Create proposal with short expiration
    let proposed_config = ConfigTestUtils::create_test_protocol_config(&mut env);
    let proposal = ConfigurationManager::create_proposal(
        &mut env,
        &admin,
        &String::from("Short-lived proposal"),
        proposed_config,
        1, // 1 second expiration
    ).unwrap();

    // Advance time to expire proposal
    env.timestamp += 2;

    // Try to approve expired proposal
    let approve_result = ConfigurationManager::approve_proposal(
        &mut env,
        &admin,
        proposal.proposal_id,
    );

    assert!(approve_result.is_err());

    // Verify proposal was marked as cancelled
    let expired_proposal = ConfigurationStorage::get_proposal(&mut env, proposal.proposal_id).unwrap();
    assert_eq!(expired_proposal.status, ProposalStatus::Cancelled);
}

#[test]
fn test_configuration_manager_update() {
    let mut env = ProtocolState::new();
    TestUtils::initialize_contract(&mut env);

    let admin = TestUtils::create_admin_address();

    // Create initial configuration
    let initial_config = ConfigTestUtils::create_test_protocol_config(&mut env);
    ConfigurationStorage::save_current_config(&mut env, &initial_config);

    // Update configuration
    let description = String::from("Updated configuration");
    let mut updated_config = initial_config.clone();
    updated_config.interest_config.base_rate = 3_000_000; // 3% instead of 2%

    let result = ConfigurationManager::update_configuration(
        &mut env,
        &admin,
        &description,
        &updated_config,
    );

    assert!(result.is_ok());
    let new_config = result.unwrap();
    assert_eq!(new_config.version.version, 2); // Should be version 2
    assert_eq!(new_config.interest_config.base_rate, 3_000_000);
    assert_eq!(new_config.version.description, description);
    assert!(new_config.version.is_active);

    // Check that old version is deactivated
    let history = ConfigurationStorage::get_config_history(&mut env);
    assert_eq!(history.len(), 2);
    assert!(!history.get(0).unwrap().version.is_active); // Old version should be inactive
    assert!(history.get(1).unwrap().version.is_active);  // New version should be active
}

#[test]
fn test_configuration_validation_errors() {
    let mut env = ProtocolState::new();

    let mut config = ConfigTestUtils::create_test_protocol_config(&mut env);

    // Test invalid interest rate configuration
    config.interest_config.base_rate = -1;
    config.interest_config.rate_ceiling = 1_000_000; // 1% ceiling
    config.interest_config.rate_floor = 2_000_000; // 2% floor (higher than ceiling)

    let validation = ConfigurationValidator::validate_configuration(&config);
    assert!(!validation.is_valid);
    // Two rules are broken: the negative base rate and the floor above the ceiling
    assert_eq!(validation.errors.len(), 2);

    // Test invalid risk configuration
    config = ConfigTestUtils::create_test_protocol_config(&mut env);
    config.risk_config.close_factor = 101_000_000; // > 100%
    config.risk_config.liquidation_incentive = 50_000_000; // 50% (the most allowed)

    let validation = ConfigurationValidator::validate_configuration(&config);
    assert!(!validation.is_valid);
    assert!(!validation.errors.is_empty());

    // Test invalid oracle configuration
    config = ConfigTestUtils::create_test_protocol_config(&mut env);
    config.oracle_config.max_deviation = 0; // Invalid deviation

    let validation = ConfigurationValidator::validate_configuration(&config);
    assert!(!validation.is_valid);
    assert!(!validation.errors.is_empty());
}

#[test]
fn test_configuration_validation_warnings() {
    let mut env = ProtocolState::new();

    let mut config = ConfigTestUtils::create_test_protocol_config(&mut env);

    // Test high but valid interest rates
    config.interest_config.base_rate = 20_000_000; // 20% (high but valid)
    config.interest_config.rate_ceiling = 100_000_000; // 100% (very high)

    let validation = ConfigurationValidator::validate_configuration(&config);
    assert!(validation.is_valid); // Should still be valid
    // Warnings are given on the protocol parameters alone
    assert!(validation.warnings.is_empty());

    // Test low but valid risk parameters
    config = ConfigTestUtils::create_test_protocol_config(&mut env);
    config.risk_config.close_factor = 10_000_000; // 10% (low but valid)
    config.risk_config.liquidation_incentive = 1_000_000; // 1% (low but valid)

    let validation = ConfigurationValidator::validate_configuration(&config);
    assert!(validation.is_valid);
    assert!(validation.warnings.is_empty());
}
