//! Laws of the protocol: what holds of every ledger and every input, proved
//! from the definitions that the contracts of the operations use.

use crate::config::{ConfigurationBackup, ConfigurationView};
use crate::config_manager::{activated, ConfigurationManager};
use crate::governance::{
    joined, lemma_joined, lemma_without, listed_in, remove_admin_refusal,
    without,
};
use crate::interest::{
    accrued, borrow_rate, interest, rates_fit, supply_rate, supply_rate_fits, updated_rates,
    utilization, utilization_fits,
};
use crate::lending::{accrued_position, fee_fits, fee_on, reserve_after_fee, Contract};
use crate::math::{in_range, lemma_div_bounds, trunc_div};
use crate::risk::{collateral_value, incentive, ratio, seized_collateral};
use crate::state::{distinct, InterestRateStorage, ProtocolConfig, ProtocolState};
use crate::types::{Address, InterestRateConfig, InterestRateState, Position, ReserveData};
use vstd::prelude::*;

verus! {

/// A position without debt has the largest ratio there is, whatever its
/// collateral and the price; no position with debt has a larger one.
pub proof fn law_ratio_without_debt_is_maximal(collateral: int, price: int, debt: int)
    ensures
        ratio(collateral, price, 0) == i128::MAX,
        in_range(ratio(collateral, price, debt)) ==> ratio(collateral, price, debt) <= ratio(
            collateral,
            price,
            0,
        ),
{
}

/// With collateral and price fixed, at a value that is not negative, the
/// ratio does not rise when the debt rises.
pub proof fn law_ratio_falls_as_debt_rises(collateral: int, price: int, debt: int, more_debt: int)
    requires
        collateral_value(collateral, price) >= 0,
        0 < debt <= more_debt,
    ensures
        ratio(collateral, price, more_debt) <= ratio(collateral, price, debt),
{
    let x = collateral_value(collateral, price) * 100;
    vstd::arithmetic::div_mod::lemma_div_is_ordered_by_denominator(x, debt, more_debt);
}

/// With collateral and price fixed, the ratio falls strictly when the debt
/// rises, provided the value of the collateral is large enough for the
/// difference to show in whole percent: a hundred times the value, times the
/// rise of the debt, is at least the product of the two debts.
pub proof fn law_ratio_falls_strictly(collateral: int, price: int, debt: int, more_debt: int)
    requires
        0 < debt < more_debt,
        collateral_value(collateral, price) * 100 * (more_debt - debt) >= debt * more_debt,
    ensures
        ratio(collateral, price, more_debt) < ratio(collateral, price, debt),
{
    let x = collateral_value(collateral, price) * 100;
    assert(x >= 0) by (nonlinear_arith)
        requires
            x * (more_debt - debt) >= debt * more_debt,
            0 < debt < more_debt,
    ;
    let q = x / more_debt;
    lemma_div_bounds(x, more_debt);
    assert(q * more_debt <= x) by (nonlinear_arith)
        requires
            q == x / more_debt,
            more_debt > 0,
            x >= 0,
    ;
    assert((q + 1) * debt <= x) by (nonlinear_arith)
        requires
            q * more_debt <= x,
            x * (more_debt - debt) >= debt * more_debt,
            0 < debt < more_debt,
            q >= 0,
            x >= 0,
    ;
    assert(x / debt >= q + 1) by (nonlinear_arith)
        requires
            (q + 1) * debt <= x,
            debt > 0,
    ;
}

/// Where nothing is borrowed, the rates can be computed, the borrow rate is
/// the base rate, and the supply rate is zero, for every valid rate curve
/// whose base rate lies between its floor and its ceiling.
pub proof fn law_rates_at_zero_utilization(
    state: InterestRateState,
    config: InterestRateConfig,
    now: u64,
)
    requires
        config.valid(),
        config.rate_floor <= config.base_rate <= config.rate_ceiling,
        utilization_fits(state.total_borrowed as int, state.total_supplied as int),
        utilization(state.total_borrowed as int, state.total_supplied as int) == 0,
    ensures
        rates_fit(state, config),
        updated_rates(state, config, now).utilization_rate == 0,
        updated_rates(state, config, now).current_borrow_rate == config.base_rate,
        updated_rates(state, config, now).current_supply_rate == 0,
{
    let b = borrow_rate(0, config);
    assert(b == config.base_rate);
    assert(b * 0 == 0);
    assert(0int / 100_000_000 == 0);
    assert(trunc_div(0, 100_000_000) == 0);
    assert(0 * (config.reserve_factor as int) == 0);
    assert(supply_rate(b, 0, config.reserve_factor as int) == 0);
    assert(supply_rate_fits(b, 0, config.reserve_factor as int));
}

/// At zero utilization the supply rate is zero whatever the borrow rate and
/// the reserve factor are.
pub proof fn law_supply_rate_at_zero_utilization(borrow_rate: int, reserve_factor: int)
    ensures
        supply_rate(borrow_rate, 0, reserve_factor) == 0,
{
    assert(borrow_rate * 0 == 0);
    assert(0int / 100_000_000 == 0);
    assert(0 * reserve_factor == 0);
}

/// Recomputing the rates a second time at the same clock sample changes
/// nothing.
pub proof fn law_rates_settle(state: InterestRateState, config: InterestRateConfig, now: u64)
    ensures
        updated_rates(updated_rates(state, config, now), config, now) == updated_rates(
            state,
            config,
            now,
        ),
        rates_fit(state, config) ==> rates_fit(updated_rates(state, config, now), config),
{
}

/// Where two requests to accrue interest follow each other at the same clock
/// sample, the second leaves the ledger as the first left it.
pub proof fn law_accrue_interest_twice(st: ProtocolState)
    ensures
        InterestRateStorage::refreshed(
            ProtocolState { interest_state: InterestRateStorage::refreshed(st), ..st },
        ) == InterestRateStorage::refreshed(st),
{
}

/// Accruing the interest of a position a second time at the same clock
/// sample adds nothing, at whatever rates.
pub proof fn law_accrual_adds_nothing_twice(
    position: Position,
    now: u64,
    borrow_rate: i128,
    supply_rate: i128,
    later_borrow_rate: i128,
    later_supply_rate: i128,
)
    ensures
        accrued(
            accrued(position, now, borrow_rate, supply_rate),
            now,
            later_borrow_rate,
            later_supply_rate,
        ) == accrued(position, now, borrow_rate, supply_rate),
{
}

/// The first accrual of a position starts its clock: the time of last
/// accrual becomes the clock value, and nothing else changes.
pub proof fn law_first_accrual_starts_the_clock(
    position: Position,
    now: u64,
    borrow_rate: i128,
    supply_rate: i128,
)
    requires
        position.last_accrual_time == 0,
    ensures
        accrued(position, now, borrow_rate, supply_rate) == (Position {
            last_accrual_time: now,
            ..position
        }),
{
}

/// Once the clock of a position runs, an accrual at a later time adds the
/// interest for the time since the last accrual to each accumulator whose
/// principal is positive, and moves the time of last accrual on.
pub proof fn law_later_accrual_earns_interest(
    position: Position,
    now: u64,
    borrow_rate: i128,
    supply_rate: i128,
)
    requires
        position.last_accrual_time != 0,
        now > position.last_accrual_time,
    ensures
        accrued(position, now, borrow_rate, supply_rate).last_accrual_time == now,
        position.debt > 0 ==> accrued(position, now, borrow_rate, supply_rate).borrow_interest
            == (position.borrow_interest + interest(
            position.debt as int,
            borrow_rate as int,
            now - position.last_accrual_time,
        )) as i128,
        position.collateral > 0 ==> accrued(
            position,
            now,
            borrow_rate,
            supply_rate,
        ).supply_interest == (position.supply_interest + interest(
            position.collateral as int,
            supply_rate as int,
            now - position.last_accrual_time,
        )) as i128,
        accrued(position, now, borrow_rate, supply_rate).collateral == position.collateral,
        accrued(position, now, borrow_rate, supply_rate).debt == position.debt,
{
}

/// A position that a deposit opens holds the amount as collateral, no debt
/// and no interest, and its clock is started at the time of the deposit.
pub proof fn law_deposit_opens_position_with_running_clock(
    pre: ProtocolState,
    post: ProtocolState,
    depositor: String,
    amount: i128,
)
    requires
        pre.wf(),
        !pre.positions@.contains_key(depositor@),
        Contract::deposit_refusal(pre, depositor, amount) is None,
        Contract::deposit_applied(pre, post, depositor, amount),
    ensures
        post.positions@.contains_key(depositor@),
        post.positions@[depositor@] == (Position {
            collateral: amount,
            last_accrual_time: pre.timestamp,
            ..Position::opened(Address { strkey: depositor }, 0, 0)
        }),
{
    assert(post.positions@.contains_key(depositor@));
}

/// A configuration restored from a backup has the settings that were
/// active when the backup was made, and a higher version number than the
/// configuration that was active then.
pub proof fn law_restore_after_backup(
    before: ProtocolState,
    between: ProtocolState,
    after: ProtocolState,
    saver: Address,
    description: String,
    backup: ConfigurationBackup,
    restorer: Address,
    restored: ConfigurationView,
)
    requires
        before.wf(),
        ConfigurationManager::backed_up(before, between, saver, description, backup),
        ConfigurationManager::restored(between, after, restorer, backup.backup_id, restored),
    ensures
        restored.settings == before.current_config->0@.settings,
        restored.version.version > before.current_config->0.version.version,
        after.current_config->0@.settings == before.current_config->0@.settings,
{
}

/// The version of a restored configuration is new: it lies above the
/// version held in the backup and above the version that was active.
pub proof fn law_restored_version_is_new(
    pre: ProtocolState,
    post: ProtocolState,
    restorer: Address,
    backup_id: u32,
    restored: ConfigurationView,
)
    requires
        pre.wf(),
        ConfigurationManager::restored(pre, post, restorer, backup_id, restored),
    ensures
        restored.version.version > pre.backups@[backup_id].configuration.version.version,
        pre.current_config is Some ==> restored.version.version
            > pre.current_config->0.version.version,
        restored.version.is_active,
        restored.version.created_by == restorer,
        post.current_config is Some && post.current_config->0@ == restored,
{
}

/// Activating a configuration leaves the stored backups as they are and
/// raises the version counter.
pub proof fn law_activation_leaves_backups(
    pre: ProtocolState,
    post: ProtocolState,
    c: ConfigurationView,
)
    requires
        activated(pre, post, c),
    ensures
        ConfigurationManager::leaves_backups(pre, post),
{
}

/// Every ledger of the sequence but the first follows from the one before
/// by a step that leaves the stored backups as they are.
pub open spec fn steps_leave_backups(ledgers: Seq<ProtocolState>) -> bool {
    forall|i: int|
        0 <= i < ledgers.len() - 1 ==> ConfigurationManager::leaves_backups(
            #[trigger] ledgers[i],
            ledgers[i + 1],
        )
}

/// After any number of steps that leave the backups alone, the backups are
/// those of the first ledger and the version counter has not fallen.
pub proof fn lemma_backups_survive(ledgers: Seq<ProtocolState>, n: int)
    requires
        steps_leave_backups(ledgers),
        0 <= n < ledgers.len(),
    ensures
        ledgers[n].backups == ledgers[0].backups,
        ledgers[n].version_counter >= ledgers[0].version_counter,
    decreases n,
{
    if n > 0 {
        lemma_backups_survive(ledgers, n - 1);
        assert(ConfigurationManager::leaves_backups(ledgers[n - 1], ledgers[n - 1 + 1]));
    }
}

/// A backup is restored with the settings that were active when it was
/// made, whatever happened in between, as long as the stored backups were
/// left alone: any number of configurations may have been activated. The
/// restored configuration is the active one, and its version lies above the
/// version that was active when the backup was made.
pub proof fn law_restore_after_backup_and_updates(
    before: ProtocolState,
    ledgers: Seq<ProtocolState>,
    after: ProtocolState,
    saver: Address,
    description: String,
    backup: ConfigurationBackup,
    restorer: Address,
    restored: ConfigurationView,
)
    requires
        before.wf(),
        ledgers.len() >= 1,
        ConfigurationManager::backed_up(before, ledgers[0], saver, description, backup),
        steps_leave_backups(ledgers),
        ConfigurationManager::restored(
            ledgers.last(),
            after,
            restorer,
            backup.backup_id,
            restored,
        ),
    ensures
        restored.settings == before.current_config->0@.settings,
        restored.version.version > before.current_config->0.version.version,
        restored.version.version > backup.configuration.version.version,
        after.current_config is Some && after.current_config->0@ == restored,
{
    lemma_backups_survive(ledgers, ledgers.len() - 1);
}

/// After a configuration was activated, it is the one entry of the history
/// that is marked active, provided it is marked active itself.
pub proof fn law_one_active_version(pre: ProtocolState, post: ProtocolState, c: ConfigurationView)
    requires
        activated(pre, post, c),
        c.version.is_active,
    ensures
        post.history().len() >= 1,
        post.history().last() == c,
        forall|i: int|
            0 <= i < post.history().len() - 1 ==> !(#[trigger] post.history()[i]).version.is_active,
{
}

/// Booking a fee keeps the reserves equal to what was collected less what
/// was distributed.
pub proof fn law_fee_keeps_reserves_balanced(
    reserve: ReserveData,
    interest: i128,
    reserve_factor: i128,
    bucket: i128,
)
    requires
        reserve.balanced(),
        fee_fits(interest, reserve_factor, reserve, bucket),
    ensures
        reserve_after_fee(reserve, fee_on(interest, reserve_factor)).balanced(),
{
}

/// A deposit that is carried out leaves the reserves balanced.
pub proof fn law_deposit_keeps_reserves_balanced(
    pre: ProtocolState,
    post: ProtocolState,
    depositor: String,
    amount: i128,
)
    requires
        pre.reserve_data.balanced(),
        Contract::deposit_refusal(pre, depositor, amount) is None,
        Contract::deposit_applied(pre, post, depositor, amount),
    ensures
        post.reserve_data.balanced(),
{
}

/// A borrow that is carried out leaves the reserves balanced.
pub proof fn law_borrow_keeps_reserves_balanced(
    pre: ProtocolState,
    post: ProtocolState,
    borrower: String,
    amount: i128,
)
    requires
        pre.reserve_data.balanced(),
        Contract::borrow_refusal(pre, borrower, amount) is None,
        Contract::borrow_applied(pre, post, borrower, amount),
    ensures
        post.reserve_data.balanced(),
{
}

/// Repayments, withdrawals and liquidations do not touch the reserves.
pub proof fn law_other_movements_leave_reserves(
    pre: ProtocolState,
    post: ProtocolState,
    who: String,
    amount: i128,
)
    requires
        Contract::repay_applied(pre, post, who, amount) || Contract::withdraw_applied(
            pre,
            post,
            who,
            amount,
        ) || Contract::liquidate_applied(pre, post, who, amount),
    ensures
        post.reserve_data == pre.reserve_data,
{
}

/// The administrator can collect any positive amount that the books can
/// hold: the request is not refused where the sums stay within the 128-bit
/// range.
pub proof fn law_collection_is_owed(
    st: ProtocolState,
    caller: Seq<char>,
    amount: i128,
    source: Seq<char>,
)
    requires
        ProtocolConfig::admin_refusal(st, caller) is None,
        amount > 0,
        in_range(st.reserve_data.total_fees_collected + amount),
        in_range(st.reserve_data.current_reserves + amount),
        in_range(st.revenue_metrics.total_borrow_fees + amount),
        in_range(st.revenue_metrics.total_supply_fees + amount),
    ensures
        Contract::collection_refusal(st, caller, amount, source) is None,
{
}

/// Collecting raises what was collected and the reserves by the amount and
/// leaves what was distributed alone, so that balanced books stay balanced.
pub proof fn law_collection_keeps_books_balanced(reserve: ReserveData, amount: i128)
    requires
        reserve.balanced(),
        amount > 0,
        in_range(reserve.total_fees_collected + amount),
        in_range(reserve.current_reserves + amount),
    ensures
        (ReserveData {
            total_fees_collected: (reserve.total_fees_collected + amount) as i128,
            current_reserves: (reserve.current_reserves + amount) as i128,
            ..reserve
        }).balanced(),
{
}

/// A liquidation never takes more collateral than there is, and never more
/// than what is repaid plus the bonus on it; collateral that was not
/// negative is not negative afterwards.
pub proof fn law_seizure_is_capped(repaid: int, liquidation_incentive: int, collateral: int)
    ensures
        seized_collateral(repaid, liquidation_incentive, collateral) <= collateral,
        seized_collateral(repaid, liquidation_incentive, collateral) <= repaid + incentive(
            repaid,
            liquidation_incentive,
        ),
        repaid + incentive(repaid, liquidation_incentive) >= collateral ==> seized_collateral(
            repaid,
            liquidation_incentive,
            collateral,
        ) == collateral,
        collateral >= 0 ==> collateral - seized_collateral(
            repaid,
            liquidation_incentive,
            collateral,
        ) >= 0,
{
}

/// A liquidation that is carried out leaves the target with the collateral
/// that was not seized and the debt that was not repaid, neither of them
/// negative.
pub proof fn law_liquidation_leaves_what_was_not_taken(
    pre: ProtocolState,
    post: ProtocolState,
    liquidator: String,
    target: String,
    amount: i128,
)
    requires
        pre.wf(),
        Contract::liquidate_refusal(pre, liquidator, target, amount) is None,
        Contract::liquidate_applied(pre, post, target, amount),
    ensures
        post.positions@.contains_key(target@),
        post.positions@[target@].collateral == accrued_position(
            pre,
            Address { strkey: target },
        ).collateral - Contract::liquidation_seizure(pre, Address { strkey: target }, amount),
        post.positions@[target@].debt == accrued_position(pre, Address { strkey: target }).debt
            - Contract::liquidation_repay(pre, Address { strkey: target }, amount),
        post.positions@[target@].collateral >= 0,
        post.positions@[target@].debt >= 0,
{
    assert(post.positions@.contains_key(target@));
    assert(pre.positions@.contains_key(target@));
}

/// Adding an administrator never empties the set of administrators.
pub proof fn law_admins_after_add(admins: Seq<Address>, new_admin: Address)
    ensures
        admins.push(new_admin).len() >= 1,
{
}

/// A removal that is carried out leaves at least one administrator.
pub proof fn law_admins_after_remove(st: ProtocolState, admin: Seq<char>, target: Seq<char>)
    requires
        st.wf(),
        remove_admin_refusal(st, admin, target) is None,
    ensures
        without(st.admins(), target).len() >= 1,
        distinct(without(st.admins(), target)),
{
    lemma_without(st.admins(), target);
}

/// A transfer that is carried out leaves at least one administrator, and
/// the new administrator is among them.
pub proof fn law_admins_after_transfer(st: ProtocolState, admin: Seq<char>, new_admin: Address)
    requires
        st.wf(),
        listed_in(st.admins(), admin),
    ensures
        joined(without(st.admins(), admin), new_admin).len() >= 1,
        listed_in(joined(without(st.admins(), admin), new_admin), new_admin@),
        distinct(joined(without(st.admins(), admin), new_admin)),
{
    lemma_without(st.admins(), admin);
    lemma_joined(without(st.admins(), admin), new_admin);
}

} // verus!
