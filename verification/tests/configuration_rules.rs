use stellar_lend::{
    AssetConfiguration, ConfigTestUtils, ConfigurationManager, ConfigurationStorage,
    ConfigurationValidator, Contract, ProposalStatus, ProtocolError, ProtocolState, TestUtils,
};

type RateTerms = (i128, i128, i128, i128, i128, i128);
type RiskTerms = (i128, i128, bool, bool, bool, bool);

const RATES: RateTerms = (2_000_000, 80_000_000, 10_000_000, 10_000_000, 50_000_000, 100_000);
const RISK: RiskTerms = (50_000_000, 5_000_000, false, false, false, false);

fn ready() -> (ProtocolState, String) {
    let mut st = ProtocolState::new();
    let admin = TestUtils::initialize_contract(&mut st);
    (st, admin.to_string())
}

fn create(st: &mut ProtocolState, admin: &str, base_rate: i128) -> Result<u32, ProtocolError> {
    Contract::create_configuration(
        st,
        String::from(admin),
        String::from("settings"),
        (base_rate, RATES.1, RATES.2, RATES.3, RATES.4, RATES.5),
        RISK,
        (String::from("ORACLE"), 10_000_000, 3_600, 100_000_000, true),
        (150, String::from("TREASURY"), 86_400, false, 10),
        Vec::new(),
    )
}

#[test]
fn a_restored_backup_has_the_old_settings_and_a_new_version() {
    let (mut st, admin) = ready();
    assert_eq!(create(&mut st, &admin, 2_000_000), Ok(1));
    let before = ConfigurationStorage::get_current_config(&st).unwrap();
    assert_eq!(
        Contract::create_config_backup(&mut st, admin.clone(), String::from("before")),
        Ok(1)
    );
    assert_eq!(create(&mut st, &admin, 3_000_000), Ok(2));
    assert_eq!(
        ConfigurationStorage::get_current_config(&st).unwrap().interest_config.base_rate,
        3_000_000
    );
    st.timestamp = 500;
    assert_eq!(Contract::restore_config_backup(&mut st, admin.clone(), 1), Ok(3));
    let after = ConfigurationStorage::get_current_config(&st).unwrap();
    assert_eq!(after.interest_config, before.interest_config);
    assert_eq!(after.risk_config, before.risk_config);
    assert_eq!(after.oracle_config, before.oracle_config);
    assert_eq!(after.protocol_params, before.protocol_params);
    assert_eq!(after.asset_configs, before.asset_configs);
    assert!(after.version.version > before.version.version);
    assert_eq!(after.version.version, 3);
    assert_eq!(after.version.created_at, 500);
    assert_eq!(after.version.description, "Restored from backup");
    assert!(after.version.is_active);
    // The history was extended, not rewritten.
    assert_eq!(Contract::get_config_history(&st), vec![1, 2, 3]);
    assert_eq!(
        Contract::restore_config_backup(&mut st, admin.clone(), 2),
        Err(ProtocolError::NotFound)
    );
    assert_eq!(
        Contract::restore_config_backup(&mut st, String::from("x"), 1),
        Err(ProtocolError::NotAdmin)
    );
}

#[test]
fn a_backup_needs_an_active_configuration() {
    let (mut st, admin) = ready();
    assert_eq!(
        Contract::create_config_backup(&mut st, admin.clone(), String::from("none")),
        Err(ProtocolError::NotFound)
    );
    assert_eq!(st.next_backup_id, 0);
    assert_eq!(Contract::get_current_config_version(&st), Err(ProtocolError::NotFound));
    let direct = ConfigurationManager::create_backup(
        &mut ProtocolState::new(),
        &TestUtils::create_admin_address(),
        &String::from("none"),
    );
    assert_eq!(direct.unwrap_err(), ProtocolError::AdminNotSet);
}

#[test]
fn the_history_keeps_the_last_ten_versions_and_one_active() {
    let (mut st, admin) = ready();
    for n in 1..=12u32 {
        assert_eq!(create(&mut st, &admin, 1_000_000 + n as i128), Ok(n));
    }
    assert_eq!(Contract::get_config_history(&st), (3..=12).collect::<Vec<u32>>());
    let history = ConfigurationStorage::get_config_history(&st);
    assert_eq!(history.len(), 10);
    for (i, entry) in history.iter().enumerate() {
        assert_eq!(entry.version.is_active, i == 9);
        assert_eq!(entry.interest_config.base_rate, 1_000_003 + i as i128);
    }
    assert_eq!(Contract::get_current_config_version(&st), Ok(12));
}

#[test]
fn invalid_settings_are_not_activated() {
    let (mut st, admin) = ready();
    assert_eq!(create(&mut st, &admin, -1), Err(ProtocolError::InvalidInput));
    assert_eq!(st.version_counter, 0);
    assert!(st.current_config.is_none());
    assert!(st.config_history.is_empty());
    assert_eq!(create(&mut st, "stranger", 1), Err(ProtocolError::NotAdmin));
    // An update needs something to update.
    let updated = Contract::update_configuration(
        &mut st,
        admin.clone(),
        String::from("update"),
        RATES,
        RISK,
        (String::from("ORACLE"), 10_000_000, 3_600, 100_000_000, true),
        (150, String::from("TREASURY"), 86_400, false, 10),
        Vec::new(),
    );
    assert_eq!(updated, Err(ProtocolError::NotFound));
    assert_eq!(create(&mut st, &admin, 1), Ok(1));
    st.timestamp = 11;
    let updated = Contract::update_configuration(
        &mut st,
        admin.clone(),
        String::from("update"),
        RATES,
        (50_000_000, 60_000_000, false, false, false, false),
        (String::from("ORACLE"), 10_000_000, 3_600, 100_000_000, true),
        (150, String::from("TREASURY"), 86_400, false, 10),
        Vec::new(),
    );
    assert_eq!(updated, Err(ProtocolError::InvalidInput));
    assert_eq!(Contract::get_current_config_version(&st), Ok(1));
    let updated = Contract::update_configuration(
        &mut st,
        admin.clone(),
        String::from("update"),
        RATES,
        RISK,
        (String::from("ORACLE"), 10_000_000, 3_600, 100_000_000, true),
        (150, String::from("TREASURY"), 86_400, false, 10),
        Vec::new(),
    );
    assert_eq!(updated, Ok(2));
    let current = ConfigurationStorage::get_current_config(&st).unwrap();
    assert_eq!(current.version.description, "update");
    assert_eq!(current.version.created_at, 11);
    assert_eq!(current.version.created_by.to_string(), admin);
    assert_eq!(current.interest_config.last_update, 11);
}

#[test]
fn validation_reports_every_fault_in_order() {
    let st = ProtocolState::new();
    let mut config = ConfigTestUtils::create_test_protocol_config(&st);
    let clean = ConfigurationValidator::validate_configuration(&config);
    assert!(clean.is_valid);
    assert!(clean.errors.is_empty());
    assert!(clean.warnings.is_empty());

    config.interest_config.base_rate = -1;
    config.interest_config.kink_utilization = 0;
    config.interest_config.multiplier = -5;
    config.interest_config.reserve_factor = 100_000_001;
    config.interest_config.rate_floor = 200_000_000;
    config.interest_config.rate_ceiling = 150_000_000;
    config.risk_config.close_factor = 0;
    config.risk_config.liquidation_incentive = 50_000_001;
    config.oracle_config.max_deviation = 0;
    config.oracle_config.heartbeat = 0;
    config.oracle_config.fallback_price = 0;
    config.protocol_params.min_collateral_ratio = 99;
    config.protocol_params.distribution_frequency = 0;
    config.protocol_params.max_assets = 0;
    let mut asset = ConfigTestUtils::create_test_asset_config();
    asset.symbol = String::new();
    asset.decimals = 19;
    asset.min_collateral_ratio = 99;
    config.asset_configs.push(ConfigTestUtils::create_test_asset_config());
    config.asset_configs.push(asset);
    let found = ConfigurationValidator::validate_configuration(&config);
    assert!(!found.is_valid);
    assert_eq!(
        found.errors,
        vec![
            "Base rate cannot be negative",
            "Kink utilization must be between 0% and 100%",
            "Multiplier cannot be negative",
            "Reserve factor must be between 0% and 100%",
            "Rate floor cannot exceed rate ceiling",
            "Rate ceiling cannot exceed 100%",
            "Close factor must be between 0% and 100%",
            "Liquidation incentive must be between 0% and 50%",
            "Max deviation must be between 0% and 100%",
            "Heartbeat cannot be zero",
            "Fallback price must be positive",
            "Minimum collateral ratio cannot be less than 100%",
            "Distribution frequency cannot be zero",
            "Maximum assets cannot be zero",
            "Asset symbol cannot be empty",
            "Asset decimals cannot exceed 18",
            "Asset minimum collateral ratio cannot be less than 100%",
        ]
    );
    assert!(found.warnings.is_empty());

    let mut high = ConfigTestUtils::create_test_protocol_config(&st);
    high.interest_config.base_rate = 100_000_001;
    high.protocol_params.min_collateral_ratio = 1_001;
    high.protocol_params.max_assets = 101;
    let found = ConfigurationValidator::validate_configuration(&high);
    assert_eq!(found.errors, vec!["Base rate cannot exceed 100%"]);
    assert_eq!(
        found.warnings,
        vec![
            "Very high minimum collateral ratio may limit borrowing",
            "Very high maximum assets may impact performance",
        ]
    );
    // Warnings alone do not stand in the way.
    high.interest_config.base_rate = 100_000_000;
    let found = ConfigurationValidator::validate_configuration(&high);
    assert!(found.is_valid);
    assert_eq!(found.warnings.len(), 2);
}

#[test]
fn settings_are_judged_without_being_stored() {
    let mut st = ProtocolState::new();
    st.timestamp = 3;
    let judged = Contract::validate_config_params(
        &st,
        RATES,
        (0, 5_000_000, false, false, false, false),
        (String::from("ORACLE"), 10_000_000, 3_600, 100_000_000, true),
        (2_000, String::from("TREASURY"), 86_400, false, 10),
        vec![(
            String::from("XLM"),
            19,
            String::from("ORACLE"),
            150,
            RATES,
            RISK,
            true,
            true,
        )],
    )
    .unwrap();
    assert!(!judged.0);
    assert_eq!(
        judged.1,
        vec!["Close factor must be between 0% and 100%", "Asset decimals cannot exceed 18"]
    );
    assert_eq!(judged.2, vec!["Very high minimum collateral ratio may limit borrowing"]);
    assert!(st.current_config.is_none());
}

#[test]
fn an_approved_proposal_is_activated_under_its_number() {
    let (mut st, admin) = ready();
    assert_eq!(create(&mut st, &admin, 2_000_000), Ok(1));
    st.timestamp = 100;
    let mut last = 0;
    for _ in 0..12 {
        last = Contract::create_config_proposal(
            &mut st,
            admin.clone(),
            String::from("raise"),
            50,
            (4_000_000, RATES.1, RATES.2, RATES.3, RATES.4, RATES.5),
            RISK,
            (String::from("ORACLE"), 10_000_000, 3_600, 100_000_000, true),
            (150, String::from("TREASURY"), 86_400, false, 10),
            Vec::new(),
        )
        .unwrap();
    }
    assert_eq!(last, 12);
    let filed = ConfigurationStorage::get_proposal(&st, 12).unwrap();
    assert_eq!(filed.status, ProposalStatus::Pending);
    assert_eq!(filed.current_version, 1);
    assert_eq!(filed.created_at, 100);
    assert_eq!(filed.expires_at, 150);
    assert_eq!(filed.description, "raise");
    st.timestamp = 150;
    assert_eq!(Contract::approve_config_proposal(&mut st, admin.clone(), 12), Ok(2));
    let current = ConfigurationStorage::get_current_config(&st).unwrap();
    assert_eq!(current.version.description, "Applied proposal 12");
    assert_eq!(current.interest_config.base_rate, 4_000_000);
    assert_eq!(
        ConfigurationStorage::get_proposal(&st, 12).unwrap().status,
        ProposalStatus::Approved
    );
    assert_eq!(Contract::approve_config_proposal(&mut st, admin.clone(), 7), Ok(3));
    assert_eq!(
        ConfigurationStorage::get_current_config(&st).unwrap().version.description,
        "Applied proposal 7"
    );
    assert_eq!(
        Contract::approve_config_proposal(&mut st, admin.clone(), 7),
        Err(ProtocolError::InvalidOperation)
    );
    assert_eq!(
        Contract::approve_config_proposal(&mut st, admin.clone(), 13),
        Err(ProtocolError::NotFound)
    );
    assert_eq!(Contract::reject_config_proposal(&mut st, admin.clone(), 1), Ok(()));
    assert_eq!(
        ConfigurationStorage::get_proposal(&st, 1).unwrap().status,
        ProposalStatus::Rejected
    );
    assert_eq!(
        Contract::reject_config_proposal(&mut st, admin, 1),
        Err(ProtocolError::InvalidOperation)
    );
}

#[test]
fn a_proposal_past_its_time_is_cancelled_when_approval_is_tried() {
    let (mut st, admin) = ready();
    assert_eq!(create(&mut st, &admin, 2_000_000), Ok(1));
    st.timestamp = 100;
    let id = Contract::create_config_proposal(
        &mut st,
        admin.clone(),
        String::from("short"),
        1,
        RATES,
        RISK,
        (String::from("ORACLE"), 10_000_000, 3_600, 100_000_000, true),
        (150, String::from("TREASURY"), 86_400, false, 10),
        Vec::new(),
    )
    .unwrap();
    st.timestamp = 102;
    // Nothing happens to it until someone tries to approve it.
    assert_eq!(
        ConfigurationStorage::get_proposal(&st, id).unwrap().status,
        ProposalStatus::Pending
    );
    assert_eq!(
        Contract::approve_config_proposal(&mut st, admin.clone(), id),
        Err(ProtocolError::InvalidOperation)
    );
    assert_eq!(
        ConfigurationStorage::get_proposal(&st, id).unwrap().status,
        ProposalStatus::Cancelled
    );
    assert_eq!(Contract::get_current_config_version(&st), Ok(1));
    assert_eq!(
        Contract::create_config_proposal(
            &mut st,
            admin,
            String::from("endless"),
            u64::MAX,
            RATES,
            RISK,
            (String::from("ORACLE"), 10_000_000, 3_600, 100_000_000, true),
            (150, String::from("TREASURY"), 86_400, false, 10),
            Vec::new(),
        ),
        Err(ProtocolError::Unknown)
    );
}

#[test]
fn assembled_assets_keep_their_terms() {
    let (mut st, admin) = ready();
    st.timestamp = 8;
    let version = Contract::create_configuration(
        &mut st,
        admin,
        String::from("with assets"),
        RATES,
        RISK,
        (String::from("ORACLE"), 10_000_000, 3_600, 100_000_000, true),
        (150, String::from("TREASURY"), 86_400, true, 10),
        vec![
            (String::from("XLM"), 7, String::from("O1"), 150, RATES, RISK, true, false),
            (
                String::from("BTC"),
                8,
                String::from("O2"),
                200,
                (1, 2, 3, 4, 6, 5),
                (7, 8, true, false, true, false),
                false,
                true,
            ),
        ],
    );
    assert_eq!(version, Ok(1));
    let current = ConfigurationStorage::get_current_config(&st).unwrap();
    assert_eq!(current.asset_configs.len(), 2);
    let btc: &AssetConfiguration = &current.asset_configs[1];
    assert_eq!(btc.symbol, "BTC");
    assert_eq!(btc.decimals, 8);
    assert_eq!(btc.oracle_address.to_string(), "O2");
    assert_eq!(btc.min_collateral_ratio, 200);
    assert_eq!(btc.interest_config.base_rate, 1);
    assert_eq!(btc.interest_config.kink_utilization, 2);
    assert_eq!(btc.interest_config.multiplier, 3);
    assert_eq!(btc.interest_config.reserve_factor, 4);
    assert_eq!(btc.interest_config.rate_ceiling, 6);
    assert_eq!(btc.interest_config.rate_floor, 5);
    assert_eq!(btc.interest_config.last_update, 8);
    assert_eq!(btc.risk_config.close_factor, 7);
    assert_eq!(btc.risk_config.liquidation_incentive, 8);
    assert!(btc.risk_config.pause_borrow && !btc.risk_config.pause_deposit);
    assert!(btc.risk_config.pause_withdraw && !btc.risk_config.pause_liquidate);
    assert!(!btc.deposit_enabled && btc.borrow_enabled);
    assert!(current.protocol_params.emergency_pause_enabled);
    assert_eq!(current.protocol_params.treasury_address.to_string(), "TREASURY");
    assert_eq!(current.oracle_config.oracle_address.to_string(), "ORACLE");
}

#[test]
fn a_configuration_saved_directly_is_archived_when_it_is_replaced() {
    let (mut st, admin) = ready();
    assert_eq!(create(&mut st, &admin, 2_000_000), Ok(1));
    let mut direct = ConfigurationStorage::get_current_config(&st).unwrap();
    direct.version.version = 5;
    ConfigurationStorage::save_current_config(&mut st, &direct);
    assert_eq!(st.version_counter, 5);
    assert_eq!(Contract::get_config_history(&st), vec![1]);
    assert_eq!(create(&mut st, &admin, 3_000_000), Ok(6));
    assert_eq!(Contract::get_config_history(&st), vec![1, 5, 6]);
    let history = ConfigurationStorage::get_config_history(&st);
    assert!(!history[0].version.is_active);
    assert!(!history[1].version.is_active);
    assert!(history[2].version.is_active);
    // A version that is the newest entry already is not archived again.
    assert_eq!(create(&mut st, &admin, 4_000_000), Ok(7));
    assert_eq!(Contract::get_config_history(&st), vec![1, 5, 6, 7]);
}
