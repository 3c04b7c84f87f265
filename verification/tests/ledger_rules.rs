use stellar_lend::events::{EventRecord, EventValue};
use stellar_lend::table::Table;
use stellar_lend::{
    ActivityStorage, Address, AssetPosition, AssetStorage, Contract, FrozenAccounts, KYCStatus,
    KYCStorage, Position, ProtocolError, ProtocolEvent, ProtocolState, ReentrancyGuard,
    SecurityMonitor, StateHelper, TestUtils, UserActivity,
};

fn who(name: &str) -> Address {
    Address::from_string(&String::from(name))
}

#[test]
fn a_table_is_a_map_in_insertion_order() {
    let mut table: Table<String, u32> = Table::new();
    assert_eq!(table.len(), 0);
    table.insert(String::from("a"), 1);
    table.insert(String::from("b"), 2);
    table.insert(String::from("a"), 3);
    assert_eq!(table.len(), 2);
    assert_eq!(table.get(&String::from("a")), Some(&3));
    assert_eq!(table.get(&String::from("b")), Some(&2));
    assert_eq!(table.get(&String::from("c")), None);
    assert_eq!(table.find(&String::from("b")), Some(1));
    assert!(table.contains_key(&String::from("a")));
    assert_eq!(table.remove(&String::from("a")), Some(3));
    assert_eq!(table.remove(&String::from("a")), None);
    assert_eq!(table.keys, vec![String::from("b")]);
    assert_eq!(table.values, vec![2]);
}

#[test]
fn a_fresh_ledger_has_the_starting_values() {
    let st = ProtocolState::new();
    assert!(st.admin.is_none() && st.oracle.is_none());
    assert_eq!(st.min_collateral_ratio, 150);
    assert_eq!(st.max_price_deviation, 50);
    assert_eq!(st.heartbeat, 3_600);
    assert_eq!(st.fallback_price, 150_000_000);
    assert_eq!(st.reserve_data.distribution_frequency, 86_400);
    assert_eq!(
        st.reserve_data.treasury_address.to_string(),
        "GCXOTMMXRS24MYZI5FJPUCOEOFNWSR4XX7UXIK3NDGGE6A5QMJ5FF2FS"
    );
    assert_eq!(st.asset_registry.supported_assets, vec![String::from("XLM")]);
    assert_eq!(st.asset_registry.default_asset, "XLM");
    assert!(st.events.is_empty());
    assert_eq!(Contract::get_risk_config(&st), (50_000_000, 10_000_000, false, false, false, false, 0));
}

#[test]
fn positions_are_filed_per_account() {
    let mut st = ProtocolState::new();
    StateHelper::save_position(&mut st, &Position::new(who("A"), 5, 1));
    StateHelper::save_position(&mut st, &Position::new(who("B"), 7, 2));
    StateHelper::save_position(&mut st, &Position::new(who("A"), 9, 3));
    assert_eq!(StateHelper::get_position(&st, &who("A")), Some(Position::new(who("A"), 9, 3)));
    assert_eq!(StateHelper::get_position(&st, &who("B")), Some(Position::new(who("B"), 7, 2)));
    StateHelper::remove_position(&mut st, &who("A"));
    assert_eq!(StateHelper::get_position(&st, &who("A")), None);
    assert_eq!(StateHelper::get_position(&st, &who("B")), Some(Position::new(who("B"), 7, 2)));

    let xlm = AssetPosition::new(who("A"), String::from("XLM"), 1, 0);
    let btc = AssetPosition::new(who("A"), String::from("BTC"), 2, 0);
    AssetStorage::save_asset_position(&mut st, &who("A"), "XLM", &xlm);
    AssetStorage::save_asset_position(&mut st, &who("A"), "BTC", &btc);
    assert_eq!(AssetStorage::get_asset_position(&st, &who("A"), "XLM"), Some(xlm));
    assert_eq!(AssetStorage::get_asset_position(&st, &who("B"), "XLM"), None);
    AssetStorage::remove_asset_position(&mut st, &who("A"), "XLM");
    assert_eq!(AssetStorage::get_asset_position(&st, &who("A"), "XLM"), None);
    assert_eq!(AssetStorage::get_asset_position(&st, &who("A"), "BTC"), Some(btc));
}

#[test]
fn account_flags_are_kept_per_account() {
    let mut st = ProtocolState::new();
    assert_eq!(KYCStorage::get(&st, &who("A")), KYCStatus::Pending);
    KYCStorage::set(&mut st, &who("A"), KYCStatus::Rejected);
    assert_eq!(KYCStorage::get(&st, &who("A")), KYCStatus::Rejected);
    assert_eq!(KYCStorage::get(&st, &who("B")), KYCStatus::Pending);
    FrozenAccounts::freeze(&mut st, &who("A"));
    assert!(FrozenAccounts::is_frozen(&st, &who("A")));
    assert!(!FrozenAccounts::is_frozen(&st, &who("B")));
    // Freezing does not blacklist.
    assert!(!stellar_lend::BlacklistStorage::is_blacklisted(&st, &who("A")));
    FrozenAccounts::unfreeze(&mut st, &who("A"));
    assert!(!FrozenAccounts::is_frozen(&st, &who("A")));
    let mut activity = UserActivity::new();
    activity.record_borrow(5, 9);
    ActivityStorage::save_user_activity(&mut st, &who("A"), &activity);
    assert_eq!(ActivityStorage::get_user_activity(&st, &who("A")), Some(activity));
    assert_eq!(ActivityStorage::get_user_activity(&st, &who("B")), None);
}

#[test]
fn suspicious_reports_are_counted_and_announced() {
    let mut st = ProtocolState::new();
    assert_eq!(SecurityMonitor::get_suspicious_count(&st, &who("A")), 0);
    SecurityMonitor::record_suspicious(&mut st, &who("A"), "odd");
    SecurityMonitor::record_suspicious(&mut st, &who("A"), "odder");
    SecurityMonitor::record_suspicious(&mut st, &who("B"), "odd");
    assert_eq!(SecurityMonitor::get_suspicious_count(&st, &who("A")), 2);
    assert_eq!(SecurityMonitor::get_suspicious_count(&st, &who("B")), 1);
    assert_eq!(
        st.events[1],
        EventRecord {
            topics: vec![EventValue::Symbol("security_alert"), EventValue::Symbol("user")],
            data: vec![
                EventValue::Symbol("reason"),
                EventValue::Text(String::from("odder")),
                EventValue::Symbol("count"),
                EventValue::Count(2),
            ],
        }
    );
}

#[test]
fn the_guard_is_a_lock() {
    let mut st = ProtocolState::new();
    assert_eq!(ReentrancyGuard::enter(&mut st), Ok(()));
    assert!(st.reentrancy_locked);
    assert_eq!(ReentrancyGuard::enter(&mut st), Err(ProtocolError::Unknown));
    assert!(st.reentrancy_locked);
    ReentrancyGuard::exit(&mut st);
    assert!(!st.reentrancy_locked);
    assert_eq!(ReentrancyGuard::enter(&mut st), Ok(()));
}

#[test]
fn events_are_announced_under_their_topics() {
    let mut st = ProtocolState::new();
    let event = ProtocolEvent::RateUpdated {
        borrow_rate: 1,
        supply_rate: 2,
        utilization: 3,
        asset: String::from("XLM"),
    };
    assert_eq!(event.to_str(), "RateUpdated");
    event.emit(&mut st);
    (ProtocolEvent::AssetAdded {
        asset: String::from("BTC"),
        symbol: String::from("BTC"),
        decimals: 8,
    })
    .emit(&mut st);
    (ProtocolEvent::AccountFrozen { user: String::from("A") }).emit(&mut st);
    assert_eq!(
        st.events,
        vec![
            EventRecord {
                topics: vec![EventValue::Symbol("rate_updated"), EventValue::Symbol("borrow_rate")],
                data: vec![
                    EventValue::Symbol("supply_rate"),
                    EventValue::Amount(2),
                    EventValue::Symbol("utilization"),
                    EventValue::Amount(3),
                    EventValue::Symbol("asset"),
                    EventValue::Text(String::from("XLM")),
                ],
            },
            EventRecord {
                topics: vec![EventValue::Symbol("asset_added"), EventValue::Symbol("asset")],
                data: vec![
                    EventValue::Symbol("symbol"),
                    EventValue::Text(String::from("BTC")),
                    EventValue::Symbol("decimals"),
                    EventValue::Count(8),
                ],
            },
            EventRecord {
                topics: vec![EventValue::Symbol("account_frozen"), EventValue::Symbol("user")],
                data: vec![EventValue::Symbol("user"), EventValue::Text(String::from("A"))],
            },
        ]
    );
    assert_eq!(
        (ProtocolEvent::Liquidate { user: String::new(), amount: 0, asset: String::new() })
            .to_str(),
        "Liquidate"
    );
}

#[test]
fn every_error_has_its_name_and_number() {
    let all = [
        (ProtocolError::Unauthorized, "Unauthorized"),
        (ProtocolError::InsufficientCollateral, "InsufficientCollateral"),
        (ProtocolError::InsufficientCollateralRatio, "InsufficientCollateralRatio"),
        (ProtocolError::InvalidAmount, "InvalidAmount"),
        (ProtocolError::InvalidAddress, "InvalidAddress"),
        (ProtocolError::PositionNotFound, "PositionNotFound"),
        (ProtocolError::AlreadyInitialized, "AlreadyInitialized"),
        (ProtocolError::NotAdmin, "NotAdmin"),
        (ProtocolError::OracleNotSet, "OracleNotSet"),
        (ProtocolError::AdminNotSet, "AdminNotSet"),
        (ProtocolError::NotEligibleForLiquidation, "NotEligibleForLiquidation"),
        (ProtocolError::ProtocolPaused, "ProtocolPaused"),
        (ProtocolError::AssetNotSupported, "AssetNotSupported"),
        (ProtocolError::AssetDisabled, "AssetDisabled"),
        (ProtocolError::InvalidAsset, "InvalidAsset"),
        (ProtocolError::Unknown, "Unknown"),
        (ProtocolError::AlreadyExists, "AlreadyExists"),
        (ProtocolError::NotFound, "NotFound"),
        (ProtocolError::InvalidOperation, "InvalidOperation"),
        (ProtocolError::InvalidInput, "InvalidInput"),
    ];
    for (i, (error, name)) in all.iter().enumerate() {
        assert_eq!(error.to_str(), *name);
        assert_eq!(error.code(), i as u32 + 1);
    }
}

#[test]
fn assets_are_listed_once_and_changed_by_the_administrator() {
    let mut st = ProtocolState::new();
    let admin = TestUtils::initialize_contract(&mut st).to_string();
    st.timestamp = 4;
    assert_eq!(
        Contract::add_asset(&mut st, admin.clone(), String::new(), 7, String::from("O"), 150),
        Err(ProtocolError::InvalidAsset)
    );
    assert_eq!(
        Contract::add_asset(&mut st, admin.clone(), String::from("DOGE"), 0, String::from("O"), 150),
        Err(ProtocolError::InvalidAmount)
    );
    assert_eq!(
        Contract::add_asset(&mut st, admin.clone(), String::from("DOGE"), 8, String::from("O"), 150),
        Ok(())
    );
    // Two symbols outside the usual ones do not share a listing.
    assert_eq!(
        Contract::add_asset(&mut st, admin.clone(), String::from("SHIB"), 8, String::from("O"), 150),
        Ok(())
    );
    assert_eq!(
        Contract::add_asset(&mut st, admin.clone(), String::from("DOGE"), 8, String::from("O"), 150),
        Err(ProtocolError::AlreadyInitialized)
    );
    assert_eq!(
        Contract::get_supported_assets(&st),
        vec![String::from("XLM"), String::from("DOGE"), String::from("SHIB")]
    );
    assert_eq!(st.asset_registry.last_update, 4);
    assert_eq!(
        Contract::set_asset_params(&mut st, admin.clone(), String::from("NONE"), 1, 2, 3, 4, 5),
        Err(ProtocolError::AssetNotSupported)
    );
    Contract::set_asset_params(&mut st, admin.clone(), String::from("DOGE"), 1, 2, 3, 4, 5)
        .unwrap();
    let info = AssetStorage::get_asset_info(&st, &String::from("DOGE")).unwrap();
    assert_eq!(info.min_collateral_ratio, 1);
    assert_eq!(info.risk_config.close_factor, 2);
    assert_eq!(info.risk_config.liquidation_incentive, 3);
    assert_eq!(info.interest_config.base_rate, 4);
    assert_eq!(info.interest_config.reserve_factor, 5);
    assert_eq!(info.interest_config.kink_utilization, 80_000_000);
    assert_eq!(info.last_update, 4);
    Contract::set_asset_borrow_enabled(&mut st, admin, String::from("DOGE"), false).unwrap();
    assert_eq!(
        Contract::get_asset_info(&st, String::from("DOGE")),
        Ok((String::from("DOGE"), 8, String::from("O"), 1, true, false))
    );
    assert_eq!(
        st.events.last().unwrap(),
        &EventRecord {
            topics: vec![EventValue::Symbol("asset_disabled"), EventValue::Symbol("asset")],
            data: vec![EventValue::Symbol("reason"), EventValue::Text(String::from("disabled"))],
        }
    );
}

#[test]
fn activity_is_counted_by_kind() {
    let mut st = ProtocolState::new();
    st.timestamp = 12;
    assert_eq!(
        Contract::track_user_activity(&mut st, String::from("A"), String::from("repay"), 1),
        Err(ProtocolError::Unknown)
    );
    for (word, amount) in [("deposit", 10), ("withdrawal", 20), ("deposit", 5)] {
        Contract::track_user_activity(&mut st, String::from("A"), String::from(word), amount)
            .unwrap();
    }
    assert_eq!(
        Contract::get_user_activity(&st, String::from("A")),
        Ok((15, 20, 0, 0, 12, 3))
    );
    assert_eq!(
        Contract::get_recent_activity(&st, String::from("A")),
        Ok((String::from("withdrawal"), 20, 12))
    );
    Contract::track_user_activity(&mut st, String::from("A"), String::from("repayment"), 1)
        .unwrap();
    assert_eq!(
        Contract::get_recent_activity(&st, String::from("A")),
        Ok((String::from("repayment"), 1, 12))
    );
    assert_eq!(
        Contract::track_user_activity(&mut st, String::from("A"), String::from("deposit"), i128::MAX),
        Err(ProtocolError::Unknown)
    );
    assert_eq!(Contract::get_user_activity(&st, String::from("B")), Ok((0, 0, 0, 0, 0, 0)));
    assert_eq!(Contract::hello(String::from("you")), vec![String::from("Hello"), String::from("you")]);
    assert_eq!(Contract::event_indexer_example_doc(), Ok(()));
    assert_eq!(Contract::get_compliance_summary(&st), (0, 0, 0));
    assert!(Contract::get_kyc_report(&st).is_empty());
    assert!(Contract::get_blacklist_report(&st).is_empty());
    assert!(Contract::get_suspicious_activity_report(&st).is_empty());
}
