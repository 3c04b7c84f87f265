use stellar_lend::events::{EventRecord, EventValue};
use stellar_lend::interest::InterestRateManager;
use stellar_lend::math::{checked_mul_div, checked_quotient};
use stellar_lend::risk::{
    checked_plain_ratio, checked_ratio, checked_repay_amount, checked_seized_collateral,
};
use stellar_lend::{
    Address, Contract, InterestRateConfig, InterestRateState, InterestRateStorage, MockOracle,
    Position, PriceOracle, ProtocolError, ProtocolState, RealPriceOracle, StateHelper, TestUtils,
};

const YEAR: u64 = 31_536_000;

fn ready() -> (ProtocolState, String) {
    let mut st = ProtocolState::new();
    let admin = TestUtils::initialize_contract(&mut st);
    (st, admin.to_string())
}

fn user(n: u32) -> String {
    TestUtils::create_user_address(n).to_string()
}

#[test]
fn truncating_division_rounds_toward_zero() {
    assert_eq!(checked_quotient(7, 2), Some(3));
    assert_eq!(checked_quotient(-7, 2), Some(-3));
    assert_eq!(checked_quotient(7, -2), Some(-3));
    assert_eq!(checked_quotient(-7, -2), Some(3));
    assert_eq!(checked_quotient(0, 5), Some(0));
    assert_eq!(checked_quotient(1, 0), None);
    assert_eq!(checked_quotient(i128::MIN, -1), None);
    assert_eq!(checked_mul_div(3, 5, 2), Some(7));
    assert_eq!(checked_mul_div(i128::MAX, 2, 2), None);
}

#[test]
fn utilization_is_borrowed_over_supplied() {
    assert_eq!(InterestRateManager::calculate_utilization(5_000, 10_000), 50_000_000);
    assert_eq!(InterestRateManager::calculate_utilization(3_000, 10_000), 30_000_000);
    assert_eq!(InterestRateManager::calculate_utilization(1, 3), 33_333_333);
    assert_eq!(InterestRateManager::calculate_utilization(7, 0), 0);
    assert_eq!(InterestRateManager::checked_utilization(i128::MAX, 1), None);
}

#[test]
fn borrow_rate_follows_the_kinked_curve() {
    let config = InterestRateConfig::default();
    // At and below the kink the base rate applies.
    assert_eq!(InterestRateManager::calculate_borrow_rate(0, &config), 2_000_000);
    assert_eq!(InterestRateManager::calculate_borrow_rate(80_000_000, &config), 2_000_000);
    // Ten points above the kink add a tenth of ten points.
    assert_eq!(InterestRateManager::calculate_borrow_rate(90_000_000, &config), 3_000_000);
    assert_eq!(InterestRateManager::calculate_borrow_rate(100_000_000, &config), 4_000_000);
    // The floor and the ceiling hold the rate in.
    let mut tight = config;
    tight.rate_floor = 2_500_000;
    tight.rate_ceiling = 3_500_000;
    assert_eq!(InterestRateManager::calculate_borrow_rate(0, &tight), 2_500_000);
    assert_eq!(InterestRateManager::calculate_borrow_rate(100_000_000, &tight), 3_500_000);
}

#[test]
fn supply_rate_is_the_effective_rate_less_the_reserve_share() {
    assert_eq!(
        InterestRateManager::calculate_supply_rate(2_000_000, 50_000_000, 10_000_000),
        900_000
    );
    assert_eq!(InterestRateManager::calculate_supply_rate(2_000_000, 0, 10_000_000), 0);
    assert_eq!(
        InterestRateManager::calculate_supply_rate(4_000_000, 100_000_000, 0),
        4_000_000
    );
    assert_eq!(
        InterestRateManager::calculate_supply_rate(4_000_000, 100_000_000, 100_000_000),
        0
    );
}

#[test]
fn interest_is_simple_interest_per_second() {
    assert_eq!(InterestRateManager::calculate_interest(1_000_000, 5_000_000, YEAR), 50_000);
    assert_eq!(InterestRateManager::calculate_interest(1_000_000, 5_000_000, YEAR / 2), 25_000);
    assert_eq!(InterestRateManager::calculate_interest(0, 5_000_000, YEAR), 0);
    assert_eq!(InterestRateManager::calculate_interest(1_000_000, 0, YEAR), 0);
    assert_eq!(InterestRateManager::calculate_interest(1_000_000, 5_000_000, 0), 0);
    assert_eq!(InterestRateManager::checked_interest(i128::MAX, 2, 1), None);
}

#[test]
fn protocol_share_is_interest_times_reserve_factor() {
    assert_eq!(
        InterestRateManager::collect_fees_from_interest(10_000, 9_000, 10_000_000),
        (1_000, 900)
    );
    assert_eq!(
        InterestRateManager::collect_fees_from_interest(10_000, 9_000, 100_000_000),
        (10_000, 9_000)
    );
    assert_eq!(InterestRateManager::collect_fees_from_interest(0, 0, 10_000_000), (0, 0));
}

#[test]
fn rates_at_zero_utilization_are_base_rate_and_zero() {
    let (mut st, _admin) = ready();
    let (borrow_rate, supply_rate) = Contract::get_current_rates(&mut st).unwrap();
    assert_eq!(borrow_rate, st.interest_config.base_rate);
    assert_eq!(supply_rate, 0);
    // Supplied funds without borrowing leave utilization at zero.
    Contract::deposit_collateral(&mut st, user(1), 10_000).unwrap();
    let (borrow_rate, supply_rate) = Contract::get_current_rates(&mut st).unwrap();
    assert_eq!(borrow_rate, 2_000_000);
    assert_eq!(supply_rate, 0);
}

#[test]
fn accruing_twice_at_the_same_time_adds_nothing() {
    let (mut st, _admin) = ready();
    st.timestamp = 5_000;
    Contract::deposit_collateral(&mut st, user(1), 10_000).unwrap();
    Contract::borrow(&mut st, user(1), 5_000).unwrap();
    Contract::accrue_interest(&mut st).unwrap();
    let first = st.interest_state;
    let interest_first = Contract::get_user_accrued_interest(&mut st, user(1)).unwrap();
    Contract::accrue_interest(&mut st).unwrap();
    assert_eq!(st.interest_state, first);
    let interest_second = Contract::get_user_accrued_interest(&mut st, user(1)).unwrap();
    assert_eq!(interest_first, interest_second);

    // The same on a position that does earn interest.
    let mut position = Position::new(Address::from_string(&user(2)), 1_000_000, 400_000);
    position.last_accrual_time = 1_000;
    let now = 1_000 + YEAR;
    InterestRateManager::accrue_interest_for_position(now, &mut position, 5_000_000, 900_000);
    assert_eq!(position.borrow_interest, 20_000);
    assert_eq!(position.supply_interest, 9_000);
    assert_eq!(position.last_accrual_time, now);
    let once = position.clone();
    InterestRateManager::accrue_interest_for_position(now, &mut position, 5_000_000, 900_000);
    assert_eq!(position, once);
}

#[test]
fn the_first_accrual_starts_the_clock_and_later_ones_earn_interest() {
    let mut fresh = Position::new(Address::from_string(&user(1)), 1_000, 500);
    InterestRateManager::accrue_interest_for_position(YEAR, &mut fresh, 5_000_000, 900_000);
    let mut started = Position::new(Address::from_string(&user(1)), 1_000, 500);
    started.last_accrual_time = YEAR;
    assert_eq!(fresh, started);
    // From then on time is measured.
    InterestRateManager::accrue_interest_for_position(2 * YEAR, &mut fresh, 5_000_000, 900_000);
    assert_eq!(fresh.borrow_interest, 25);
    assert_eq!(fresh.supply_interest, 9);
    assert_eq!(fresh.last_accrual_time, 2 * YEAR);
    assert_eq!((fresh.collateral, fresh.debt), (1_000, 500));

    let mut position = Position::new(Address::from_string(&user(1)), 2_000_000, 0);
    position.last_accrual_time = 10;
    InterestRateManager::accrue_interest_for_position(10 + YEAR, &mut position, 5_000_000, 1_000_000);
    assert_eq!(position.collateral, 2_000_000);
    assert_eq!(position.debt, 0);
    assert_eq!(position.borrow_interest, 0);
    assert_eq!(position.supply_interest, 20_000);
    // A clock that has not moved past the last accrual earns nothing.
    let before = position.clone();
    InterestRateManager::accrue_interest_for_position(5, &mut position, 5_000_000, 1_000_000);
    assert_eq!(position, before);
    // At a clock value of zero there is nothing to start.
    let mut at_zero = Position::new(Address::from_string(&user(1)), 1_000, 500);
    InterestRateManager::accrue_interest_for_position(0, &mut at_zero, 5_000_000, 900_000);
    assert_eq!(at_zero, Position::new(Address::from_string(&user(1)), 1_000, 500));
}

#[test]
fn a_position_opened_by_a_deposit_earns_interest_and_pays_fees() {
    let (mut st, _admin) = ready();
    st.timestamp = 1_000;
    Contract::deposit_collateral(&mut st, user(1), 2_000).unwrap();
    let opened = StateHelper::get_position(&st, &Address::from_string(&user(1))).unwrap();
    assert_eq!(opened.last_accrual_time, 1_000);
    assert_eq!((opened.borrow_interest, opened.supply_interest), (0, 0));
    Contract::borrow(&mut st, user(1), 1_000).unwrap();
    assert_eq!(st.reserve_data.total_fees_collected, 0);

    // A year later: 2% on a debt of 1000, 0.9% on collateral of 2000.
    st.timestamp = 1_000 + YEAR;
    assert_eq!(
        Contract::get_user_accrued_interest(&mut st, user(1)),
        Ok((20, 18))
    );
    assert_eq!(Contract::borrow(&mut st, user(1), 1), Ok(()));
    let stored = StateHelper::get_position(&st, &Address::from_string(&user(1))).unwrap();
    assert_eq!((stored.collateral, stored.debt), (2_000, 1_001));
    assert_eq!(stored.borrow_interest, 20);
    assert_eq!(stored.supply_interest, 18);
    assert_eq!(stored.last_accrual_time, 1_000 + YEAR);
    // A tenth of the borrow interest goes to the reserves.
    assert_eq!(st.reserve_data.total_fees_collected, 2);
    assert_eq!(st.reserve_data.current_reserves, 2);
    assert_eq!(st.revenue_metrics.total_borrow_fees, 2);
    // A deposit books the share of the supply interest.
    assert_eq!(Contract::deposit_collateral(&mut st, user(1), 1), Ok(()));
    assert_eq!(st.reserve_data.total_fees_collected, 3);
    assert_eq!(st.reserve_data.current_reserves, 3);
    assert_eq!(st.revenue_metrics.total_supply_fees, 1);
    let stored = StateHelper::get_position(&st, &Address::from_string(&user(1))).unwrap();
    assert_eq!((stored.borrow_interest, stored.supply_interest), (20, 18));
}

#[test]
fn ratio_is_maximal_without_debt_and_falls_as_debt_rises() {
    assert_eq!(checked_ratio(2_000, 200_000_000, 0), Some(i128::MAX));
    assert_eq!(checked_ratio(0, 200_000_000, 0), Some(i128::MAX));
    assert_eq!(checked_ratio(2_000, 200_000_000, 1_000), Some(400));
    assert_eq!(checked_ratio(2_000, 200_000_000, 2_000), Some(200));
    assert_eq!(checked_ratio(2_000, 200_000_000, 3_000), Some(133));
    assert_eq!(checked_ratio(2_000, 150_000_000, 1_000), Some(300));
    // Whole percent hide small differences: the ratio does not rise, but it
    // need not fall.
    assert_eq!(checked_ratio(1, 100_000_000, 200), Some(0));
    assert_eq!(checked_ratio(1, 100_000_000, 300), Some(0));
    assert_eq!(checked_plain_ratio(1_500, 1_000), Some(150));
    assert_eq!(checked_plain_ratio(1_500, 0), Some(i128::MAX));
    assert_eq!(checked_ratio(i128::MAX, 200_000_000, 1), None);

    let mut st = ProtocolState::new();
    let with_debt = Position::new(Address::from_string(&user(1)), 2_000, 1_000);
    let without_debt = Position::new(Address::from_string(&user(1)), 2_000, 0);
    assert_eq!(StateHelper::dynamic_collateral_ratio::<MockOracle>(&mut st, &with_debt), 400);
    assert_eq!(
        StateHelper::dynamic_collateral_ratio::<MockOracle>(&mut st, &without_debt),
        i128::MAX
    );
    assert_eq!(StateHelper::collateral_ratio(&with_debt), 200);
}

#[test]
fn borrowing_below_the_minimum_ratio_is_refused_and_changes_nothing() {
    let (mut st, _admin) = ready();
    Contract::deposit_collateral(&mut st, user(1), 2_000).unwrap();
    Contract::borrow(&mut st, user(1), 1_000).unwrap();
    let (collateral, debt, ratio) = Contract::get_position(&mut st, user(1)).unwrap();
    assert_eq!((collateral, debt, ratio), (2_000, 1_000, 400));

    let rates_before = st.interest_state;
    let events_before = st.events.len();
    let result = Contract::borrow(&mut st, user(1), 2_000);
    assert_eq!(result, Err(ProtocolError::InsufficientCollateralRatio));
    let (collateral, debt, ratio) = Contract::get_position(&mut st, user(1)).unwrap();
    assert_eq!((collateral, debt, ratio), (2_000, 1_000, 400));
    assert_eq!(st.interest_state, rates_before);
    assert_eq!(st.events.len(), events_before);
    assert!(!st.reentrancy_locked);

    // The largest debt that keeps 150% at price 2.0 is 2666.
    assert_eq!(
        Contract::borrow(&mut st, user(1), 1_667),
        Err(ProtocolError::InsufficientCollateralRatio)
    );
    assert_eq!(Contract::borrow(&mut st, user(1), 1_666), Ok(()));
    assert_eq!(st.interest_state.total_borrowed, 2_666);
}

#[test]
fn liquidation_repays_no_more_than_the_close_factor_allows() {
    let (mut st, admin) = ready();
    Contract::set_risk_params(&mut st, admin.clone(), 30_000_000, 10_000_000).unwrap();
    Contract::deposit_collateral(&mut st, user(1), 1_000).unwrap();
    Contract::borrow(&mut st, user(1), 800).unwrap();
    // At price 2.0 the position stands at 250%.
    assert_eq!(
        Contract::liquidate(&mut st, user(2), user(1), 500),
        Err(ProtocolError::NotEligibleForLiquidation)
    );
    Contract::set_min_collateral_ratio(&mut st, admin.clone(), 300).unwrap();
    assert_eq!(Contract::liquidate(&mut st, user(2), user(1), 500), Ok(()));
    let (collateral, debt, _) = Contract::get_position(&mut st, user(1)).unwrap();
    assert_eq!(debt, 560);
    assert_eq!(collateral, 1_000 - 264);
    assert_eq!(st.interest_state.total_borrowed, 560);
    assert_eq!(checked_repay_amount(500, 800, 30_000_000), Some(240));
    assert_eq!(checked_repay_amount(100, 800, 30_000_000), Some(100));
    assert_eq!(checked_repay_amount(900, 800, 100_000_000), Some(800));
}

#[test]
fn liquidation_seizes_the_repayment_plus_the_incentive() {
    let (mut st, admin) = ready();
    Contract::set_risk_params(&mut st, admin.clone(), 50_000_000, 20_000_000).unwrap();
    Contract::deposit_collateral(&mut st, user(1), 1_000).unwrap();
    Contract::borrow(&mut st, user(1), 800).unwrap();
    Contract::set_min_collateral_ratio(&mut st, admin.clone(), 300).unwrap();
    assert_eq!(Contract::liquidate(&mut st, user(2), user(1), 400), Ok(()));
    let (collateral, debt, _) = Contract::get_position(&mut st, user(1)).unwrap();
    assert_eq!(debt, 400);
    assert_eq!(collateral, 1_000 - 480);
    assert_eq!(checked_seized_collateral(400, 20_000_000, 1_000), Some(480));
    // No more is seized than there is.
    assert_eq!(checked_seized_collateral(400, 20_000_000, 450), Some(450));

    let mut st = ProtocolState::new();
    let admin = TestUtils::initialize_contract(&mut st).to_string();
    Contract::set_risk_params(&mut st, admin, 50_000_000, 20_000_000).unwrap();
    StateHelper::save_position(&mut st, &Position::new(Address::from_string(&user(1)), 450, 800));
    assert_eq!(Contract::liquidate(&mut st, user(2), user(1), 400), Ok(()));
    let (collateral, debt, _) = Contract::get_position(&mut st, user(1)).unwrap();
    assert_eq!((collateral, debt), (0, 400));
}

#[test]
fn liquidation_refusals() {
    let (mut st, admin) = ready();
    assert_eq!(
        Contract::liquidate(&mut st, String::new(), user(1), 1),
        Err(ProtocolError::InvalidAddress)
    );
    assert_eq!(
        Contract::liquidate(&mut st, user(2), String::new(), 1),
        Err(ProtocolError::InvalidAddress)
    );
    assert_eq!(
        Contract::liquidate(&mut st, user(2), user(1), 0),
        Err(ProtocolError::InvalidAmount)
    );
    assert_eq!(
        Contract::liquidate(&mut st, user(2), user(1), 10),
        Err(ProtocolError::PositionNotFound)
    );
    // A close factor of zero caps every repayment at zero.
    StateHelper::save_position(&mut st, &Position::new(Address::from_string(&user(1)), 10, 800));
    Contract::set_risk_params(&mut st, admin.clone(), 0, 10_000_000).unwrap();
    assert_eq!(
        Contract::liquidate(&mut st, user(2), user(1), 10),
        Err(ProtocolError::InvalidAmount)
    );
    Contract::freeze_account(&mut st, admin.clone(), user(1)).unwrap();
    assert_eq!(
        Contract::liquidate(&mut st, user(2), user(1), 10),
        Err(ProtocolError::Unauthorized)
    );
    Contract::set_pause_switches(&mut st, admin, false, false, false, true).unwrap();
    assert_eq!(
        Contract::liquidate(&mut st, user(2), user(1), 10),
        Err(ProtocolError::ProtocolPaused)
    );
    // Nothing of this touched the position.
    assert_eq!(
        StateHelper::get_position(&st, &Address::from_string(&user(1))),
        Some(Position::new(Address::from_string(&user(1)), 10, 800))
    );
}

#[test]
fn deposit_books_the_share_of_accrued_supply_interest() {
    let (mut st, _admin) = ready();
    let mut position = Position::new(Address::from_string(&user(1)), 1_000_000, 0);
    position.last_accrual_time = 1_000;
    StateHelper::save_position(&mut st, &position);
    let mut totals = InterestRateState::initial();
    totals.total_supplied = 1_000_000;
    totals.total_borrowed = 500_000;
    InterestRateStorage::save_state(&mut st, &totals);
    st.timestamp = 1_000 + YEAR;

    assert_eq!(Contract::deposit_collateral(&mut st, user(1), 100), Ok(()));
    let stored = StateHelper::get_position(&st, &Address::from_string(&user(1))).unwrap();
    assert_eq!(stored.collateral, 1_000_100);
    // 50% utilization: supply rate 0.9%, for one year on 1,000,000.
    assert_eq!(stored.supply_interest, 9_000);
    assert_eq!(stored.last_accrual_time, 1_000 + YEAR);
    assert_eq!(st.interest_state.utilization_rate, 50_000_000);
    assert_eq!(st.interest_state.current_borrow_rate, 2_000_000);
    assert_eq!(st.interest_state.current_supply_rate, 900_000);
    assert_eq!(st.interest_state.total_supplied, 1_000_100);
    assert_eq!(st.interest_state.last_accrual_time, 1_000 + YEAR);
    // A tenth of the interest goes to the reserves.
    assert_eq!(st.reserve_data.total_fees_collected, 900);
    assert_eq!(st.reserve_data.current_reserves, 900);
    assert_eq!(st.reserve_data.total_fees_distributed, 0);
    assert_eq!(st.revenue_metrics.total_supply_fees, 900);
    assert_eq!(st.revenue_metrics.total_borrow_fees, 0);
    assert_eq!(
        st.events,
        vec![
            EventRecord {
                topics: vec![EventValue::Symbol("fees_collected"), EventValue::Symbol("amount")],
                data: vec![EventValue::Symbol("source"), EventValue::Text(String::from("supply"))],
            },
            EventRecord {
                topics: vec![EventValue::Symbol("deposit"), EventValue::Symbol("user")],
                data: vec![
                    EventValue::Symbol("user"),
                    EventValue::Amount(100),
                    EventValue::Symbol("asset"),
                    EventValue::Text(String::from("XLM")),
                ],
            },
        ]
    );
}

#[test]
fn borrow_books_the_share_of_accrued_borrow_interest() {
    let (mut st, _admin) = ready();
    let mut position = Position::new(Address::from_string(&user(1)), 1_000_000, 500_000);
    position.last_accrual_time = 1_000;
    StateHelper::save_position(&mut st, &position);
    let mut totals = InterestRateState::initial();
    totals.total_supplied = 1_000_000;
    totals.total_borrowed = 500_000;
    InterestRateStorage::save_state(&mut st, &totals);
    st.timestamp = 1_000 + YEAR;

    assert_eq!(Contract::borrow(&mut st, user(1), 1_000), Ok(()));
    let stored = StateHelper::get_position(&st, &Address::from_string(&user(1))).unwrap();
    assert_eq!(stored.debt, 501_000);
    // 2% for one year on 500,000.
    assert_eq!(stored.borrow_interest, 10_000);
    assert_eq!(stored.supply_interest, 9_000);
    assert_eq!(st.interest_state.total_borrowed, 501_000);
    assert_eq!(st.reserve_data.total_fees_collected, 1_000);
    assert_eq!(st.reserve_data.current_reserves, 1_000);
    assert_eq!(st.revenue_metrics.total_borrow_fees, 1_000);
    assert_eq!(st.revenue_metrics.total_supply_fees, 0);
    assert_eq!(st.events.len(), 2);
    // The feed's price at this time was accepted and stored.
    assert_eq!(st.oracle_price, 200_000_000 + ((1_000 + YEAR) % 1000) as i128 * 10_000);
    assert_eq!(st.oracle_last_update, 1_000 + YEAR);
}

#[test]
fn large_transfers_are_announced() {
    let (mut st, _admin) = ready();
    st.timestamp = 77;
    Contract::deposit_collateral(&mut st, user(1), 100_000_000).unwrap();
    assert_eq!(st.events.len(), 2);
    assert_eq!(
        st.events[0],
        EventRecord {
            topics: vec![
                EventValue::Symbol("SuspiciousActivity"),
                EventValue::Account(Address::from_string(&user(1))),
            ],
            data: vec![
                EventValue::Text(String::from("deposit")),
                EventValue::Amount(100_000_000),
                EventValue::Time(77),
            ],
        }
    );
    Contract::deposit_collateral(&mut st, user(1), 99_999_999).unwrap();
    assert_eq!(st.events.len(), 3);
}

#[test]
fn repayment_stops_at_zero_debt() {
    let (mut st, _admin) = ready();
    Contract::deposit_collateral(&mut st, user(1), 2_000).unwrap();
    Contract::borrow(&mut st, user(1), 1_000).unwrap();
    assert_eq!(Contract::repay(&mut st, user(1), 5_000), Ok(()));
    let (collateral, debt, ratio) = Contract::get_position(&mut st, user(1)).unwrap();
    assert_eq!((collateral, debt, ratio), (2_000, 0, i128::MAX));
    assert_eq!(st.interest_state.total_borrowed, 0);
    assert_eq!(Contract::repay(&mut st, user(1), 0), Err(ProtocolError::InvalidAmount));
    assert_eq!(Contract::repay(&mut st, String::new(), 1), Err(ProtocolError::InvalidAddress));
}

#[test]
fn withdrawal_with_debt_is_priced_first() {
    let (mut st, _admin) = ready();
    Contract::deposit_collateral(&mut st, user(1), 2_000).unwrap();
    Contract::borrow(&mut st, user(1), 1_000).unwrap();
    // 750 left at price 2.0 against 1000 is exactly 150%.
    assert_eq!(
        Contract::withdraw(&mut st, user(1), 1_251),
        Err(ProtocolError::InsufficientCollateralRatio)
    );
    assert_eq!(Contract::withdraw(&mut st, user(1), 1_250), Ok(()));
    let (collateral, debt, ratio) = Contract::get_position(&mut st, user(1)).unwrap();
    assert_eq!((collateral, debt, ratio), (750, 1_000, 150));
    assert_eq!(st.interest_state.total_supplied, 750);
    assert_eq!(
        Contract::withdraw(&mut st, user(1), 751),
        Err(ProtocolError::InsufficientCollateral)
    );
    // An account without a position has nothing to withdraw.
    assert_eq!(
        Contract::withdraw(&mut st, user(2), 1),
        Err(ProtocolError::InsufficientCollateral)
    );
}

#[test]
fn the_lock_refuses_reentry_and_is_released_on_every_path() {
    let (mut st, _admin) = ready();
    st.reentrancy_locked = true;
    assert_eq!(Contract::deposit_collateral(&mut st, user(1), 10), Err(ProtocolError::Unknown));
    assert_eq!(Contract::borrow(&mut st, user(1), 10), Err(ProtocolError::Unknown));
    assert_eq!(Contract::repay(&mut st, user(1), 10), Err(ProtocolError::Unknown));
    assert!(st.reentrancy_locked);
    assert!(StateHelper::get_position(&st, &Address::from_string(&user(1))).is_none());
    st.reentrancy_locked = false;
    assert_eq!(Contract::deposit_collateral(&mut st, user(1), 10), Ok(()));
    assert!(!st.reentrancy_locked);
    assert_eq!(Contract::deposit_collateral(&mut st, user(1), 0), Err(ProtocolError::InvalidAmount));
    assert!(!st.reentrancy_locked);
}

#[test]
fn arithmetic_out_of_range_is_refused_and_changes_nothing() {
    let (mut st, _admin) = ready();
    Contract::deposit_collateral(&mut st, user(1), i128::MAX).unwrap();
    let events = st.events.len();
    assert_eq!(Contract::deposit_collateral(&mut st, user(1), 1), Err(ProtocolError::Unknown));
    assert_eq!(Contract::deposit_collateral(&mut st, user(2), 1), Err(ProtocolError::Unknown));
    let (collateral, debt, _) = Contract::get_position(&mut st, user(1)).unwrap();
    assert_eq!((collateral, debt), (i128::MAX, 0));
    assert_eq!(st.interest_state.total_supplied, i128::MAX);
    assert_eq!(st.events.len(), events);
    assert!(StateHelper::get_position(&st, &Address::from_string(&user(2))).is_none());
}

#[test]
fn blacklisted_and_frozen_accounts_are_turned_away() {
    let (mut st, admin) = ready();
    stellar_lend::BlacklistStorage::set(&mut st, &Address::from_string(&user(1)), true);
    assert_eq!(
        Contract::deposit_collateral(&mut st, user(1), 10),
        Err(ProtocolError::Unauthorized)
    );
    assert_eq!(Contract::get_compliance_status(&st, Address::from_string(&user(1))), (false, true));
    stellar_lend::BlacklistStorage::set(&mut st, &Address::from_string(&user(1)), false);
    assert_eq!(Contract::deposit_collateral(&mut st, user(1), 10), Ok(()));
    Contract::freeze_account(&mut st, admin, user(1)).unwrap();
    assert_eq!(Contract::withdraw(&mut st, user(1), 5), Err(ProtocolError::Unauthorized));
    stellar_lend::KYCStorage::set(
        &mut st,
        &Address::from_string(&user(1)),
        stellar_lend::KYCStatus::Verified,
    );
    assert_eq!(Contract::get_compliance_status(&st, Address::from_string(&user(1))), (true, false));
}
