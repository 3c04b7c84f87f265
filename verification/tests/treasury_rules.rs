use stellar_lend::{Contract, ProtocolError, ProtocolState, TestUtils};

fn ready() -> (ProtocolState, String) {
    let mut st = ProtocolState::new();
    let admin = TestUtils::initialize_contract(&mut st);
    (st, admin.to_string())
}

fn balanced(st: &ProtocolState) -> bool {
    let r = &st.reserve_data;
    r.current_reserves == r.total_fees_collected - r.total_fees_distributed
        && r.current_reserves >= 0
}

#[test]
fn collecting_and_distributing_keep_the_books_balanced() {
    let (mut st, admin) = ready();
    assert!(balanced(&st));
    Contract::collect_protocol_fees(&mut st, admin.clone(), 2_000, String::from("borrow")).unwrap();
    assert!(balanced(&st));
    Contract::collect_protocol_fees(&mut st, admin.clone(), 500, String::from("supply")).unwrap();
    assert!(balanced(&st));
    Contract::collect_protocol_fees(&mut st, admin.clone(), 7, String::from("other")).unwrap();
    assert!(balanced(&st));
    assert_eq!(Contract::get_revenue_metrics(&st), (0, 0, 0, 2_000, 500));
    st.timestamp = 42;
    Contract::distribute_fees_to_treasury(&mut st, admin.clone(), 1_507).unwrap();
    assert!(balanced(&st));
    assert_eq!(
        Contract::get_reserve_data(&st),
        (2_507, 1_507, 1_000, admin.clone(), 42, 86_400)
    );
    // A refused request leaves them as they are.
    assert_eq!(
        Contract::distribute_fees_to_treasury(&mut st, admin.clone(), 1_001),
        Err(ProtocolError::InsufficientCollateral)
    );
    assert_eq!(
        Contract::distribute_fees_to_treasury(&mut st, admin.clone(), 0),
        Err(ProtocolError::InvalidAmount)
    );
    assert_eq!(
        Contract::collect_protocol_fees(&mut st, admin.clone(), -1, String::from("borrow")),
        Err(ProtocolError::InvalidAmount)
    );
    assert_eq!(
        Contract::collect_protocol_fees(&mut st, admin.clone(), i128::MAX, String::from("x")),
        Err(ProtocolError::Unknown)
    );
    assert_eq!(
        Contract::get_reserve_data(&st),
        (2_507, 1_507, 1_000, admin.clone(), 42, 86_400)
    );
    Contract::distribute_fees_to_treasury(&mut st, admin, 1_000).unwrap();
    assert!(balanced(&st));
    assert_eq!(st.reserve_data.current_reserves, 0);
}

#[test]
fn an_emergency_withdrawal_is_not_booked_as_a_distribution() {
    let (mut st, admin) = ready();
    Contract::collect_protocol_fees(&mut st, admin.clone(), 1_000, String::from("borrow")).unwrap();
    Contract::emergency_withdraw_fees(&mut st, admin.clone(), 300).unwrap();
    assert_eq!(st.reserve_data.total_fees_collected, 1_000);
    assert_eq!(st.reserve_data.total_fees_distributed, 0);
    assert_eq!(st.reserve_data.current_reserves, 700);
    assert!(!balanced(&st));
    assert_eq!(
        Contract::emergency_withdraw_fees(&mut st, admin.clone(), 701),
        Err(ProtocolError::InsufficientCollateral)
    );
    assert_eq!(
        Contract::emergency_withdraw_fees(&mut st, admin.clone(), 0),
        Err(ProtocolError::InvalidAmount)
    );
    assert_eq!(
        Contract::emergency_withdraw_fees(&mut st, String::from("someone"), 1),
        Err(ProtocolError::NotAdmin)
    );
    assert_eq!(st.reserve_data.current_reserves, 700);
}

#[test]
fn the_treasury_can_be_renamed_and_is_announced() {
    let (mut st, admin) = ready();
    let before = st.events.len();
    Contract::set_treasury_address(&mut st, admin.clone(), String::from("TREASURY")).unwrap();
    assert_eq!(st.reserve_data.treasury_address.to_string(), "TREASURY");
    assert_eq!(st.events.len(), before + 1);
    assert_eq!(
        st.events[before],
        (stellar_lend::ProtocolEvent::TreasuryUpdated {
            old_address: admin,
            new_address: String::from("TREASURY"),
        })
        .to_record()
    );
}
