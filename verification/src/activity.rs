//! Activity counters, account freezing and the compliance queries.

use crate::admin::admin_gate;
use crate::errors::ProtocolError;
use crate::events::ProtocolEvent;
use crate::lending::Contract;
use crate::state::{ActivityStorage, ProtocolConfig, ProtocolState};
use crate::types::{text, Address, KYCStatus, ProtocolActivity, UserActivity};
use vstd::prelude::*;

verus! {

/// The four kinds of action that are counted.
pub enum TrackedAction {
    Deposit,
    Withdrawal,
    Borrow,
    Repayment,
}

/// The kind of action that `word` names, if it names one.
pub open spec fn tracked_action(word: Seq<char>) -> Option<TrackedAction> {
    if word == "deposit"@ {
        Some(TrackedAction::Deposit)
    } else if word == "withdrawal"@ {
        Some(TrackedAction::Withdrawal)
    } else if word == "borrow"@ {
        Some(TrackedAction::Borrow)
    } else if word == "repayment"@ {
        Some(TrackedAction::Repayment)
    } else {
        None
    }
}

/// The running total that an action of this kind adds to.
pub open spec fn tracked_total(activity: UserActivity, action: TrackedAction) -> i128 {
    match action {
        TrackedAction::Deposit => activity.total_deposits,
        TrackedAction::Withdrawal => activity.total_withdrawals,
        TrackedAction::Borrow => activity.total_borrows,
        TrackedAction::Repayment => activity.total_repayments,
    }
}

/// The counters after one more action of `amount` at `now`.
pub open spec fn recorded(activity: UserActivity, action: TrackedAction, amount: i128, now: u64)
    -> UserActivity {
    let counted = UserActivity {
        last_activity: now,
        activity_count: (activity.activity_count + 1) as u32,
        ..activity
    };
    match action {
        TrackedAction::Deposit => UserActivity {
            total_deposits: (activity.total_deposits + amount) as i128,
            ..counted
        },
        TrackedAction::Withdrawal => UserActivity {
            total_withdrawals: (activity.total_withdrawals + amount) as i128,
            ..counted
        },
        TrackedAction::Borrow => UserActivity {
            total_borrows: (activity.total_borrows + amount) as i128,
            ..counted
        },
        TrackedAction::Repayment => UserActivity {
            total_repayments: (activity.total_repayments + amount) as i128,
            ..counted
        },
    }
}

/// The kind of action that a summary of the counters names: the last kind
/// in the order deposit, withdrawal, borrow, repayment that has a positive
/// total.
pub open spec fn summary_kind(activity: UserActivity) -> TrackedAction {
    if activity.total_repayments > 0 {
        TrackedAction::Repayment
    } else if activity.total_borrows > 0 {
        TrackedAction::Borrow
    } else if activity.total_withdrawals > 0 {
        TrackedAction::Withdrawal
    } else {
        TrackedAction::Deposit
    }
}

/// The word for a kind of action.
pub open spec fn action_word(action: TrackedAction) -> &'static str {
    match action {
        TrackedAction::Deposit => "deposit",
        TrackedAction::Withdrawal => "withdrawal",
        TrackedAction::Borrow => "borrow",
        TrackedAction::Repayment => "repayment",
    }
}

impl Contract {
    /// The counters of `user`, or fresh ones.
    pub open spec fn activity_of(st: ProtocolState, user: Seq<char>) -> UserActivity {
        if st.user_activity@.contains_key(user) {
            st.user_activity@[user]
        } else {
            UserActivity::zero()
        }
    }

    /// Why an action is not counted, if it is not.
    pub open spec fn tracking_refusal(
        st: ProtocolState,
        user: Seq<char>,
        action: Seq<char>,
        amount: i128,
    ) -> Option<ProtocolError> {
        match tracked_action(action) {
            None => Some(ProtocolError::Unknown),
            Some(kind) => if Self::activity_of(st, user).can_record(
                tracked_total(Self::activity_of(st, user), kind),
                amount,
            ) {
                None
            } else {
                Some(ProtocolError::Unknown)
            },
        }
    }

    /// Counts one action of `user` and announces it.
    pub fn track_user_activity(
        st: &mut ProtocolState,
        user: String,
        action: String,
        amount: i128,
    ) -> (r: Result<(), ProtocolError>)
        requires
            old(st).wf(),
        ensures
            final(st).wf(),
            r == (match Self::tracking_refusal(*old(st), user@, action@, amount) {
                Some(e) => Err::<(), ProtocolError>(e),
                None => Ok(()),
            }),
            r is Err ==> *final(st) == *old(st),
            r is Ok ==> {
                &&& final(st).user_activity@ == old(st).user_activity@.insert(
                    user@,
                    recorded(
                        Self::activity_of(*old(st), user@),
                        tracked_action(action@)->0,
                        amount,
                        old(st).timestamp,
                    ),
                )
                &&& final(st).event_log() == old(st).event_log().push(
                    (ProtocolEvent::UserActivityTracked {
                        user,
                        action,
                        amount,
                        timestamp: old(st).timestamp,
                    }).publication(),
                )
                &&& (ProtocolState {
                    user_activity: old(st).user_activity,
                    events: old(st).events,
                    ..*final(st)
                }) == *old(st)
            },
    {
        let user_addr = Address::from_string(&user);
        let timestamp = st.timestamp;
        let mut activity = match ActivityStorage::get_user_activity(st, &user_addr) {
            Some(a) => a,
            None => UserActivity::new(),
        };
        if activity.activity_count == u32::MAX {
            return Err(ProtocolError::Unknown);
        }
        if action == text("deposit") {
            if activity.total_deposits.checked_add(amount).is_none() {
                return Err(ProtocolError::Unknown);
            }
            activity.record_deposit(amount, timestamp);
        } else if action == text("withdrawal") {
            if activity.total_withdrawals.checked_add(amount).is_none() {
                return Err(ProtocolError::Unknown);
            }
            activity.record_withdrawal(amount, timestamp);
        } else if action == text("borrow") {
            if activity.total_borrows.checked_add(amount).is_none() {
                return Err(ProtocolError::Unknown);
            }
            activity.record_borrow(amount, timestamp);
        } else if action == text("repayment") {
            if activity.total_repayments.checked_add(amount).is_none() {
                return Err(ProtocolError::Unknown);
            }
            activity.record_repayment(amount, timestamp);
        } else {
            return Err(ProtocolError::Unknown);
        }
        ActivityStorage::save_user_activity(st, &user_addr, &activity);
        let event = ProtocolEvent::UserActivityTracked { user, action, amount, timestamp };
        event.emit(st);
        Ok(())
    }

    /// The four totals, the time of the last action and the number of
    /// actions of `user`.
    pub fn get_user_activity(st: &ProtocolState, user: String) -> (r: Result<
        (i128, i128, i128, i128, u64, u32),
        ProtocolError,
    >)
        requires
            st.wf(),
        ensures
            r == Ok::<(i128, i128, i128, i128, u64, u32), ProtocolError>(
                (
                    Self::activity_of(*st, user@).total_deposits,
                    Self::activity_of(*st, user@).total_withdrawals,
                    Self::activity_of(*st, user@).total_borrows,
                    Self::activity_of(*st, user@).total_repayments,
                    Self::activity_of(*st, user@).last_activity,
                    Self::activity_of(*st, user@).activity_count,
                ),
            ),
    {
        let user_addr = Address::from_string(&user);
        let activity = match ActivityStorage::get_user_activity(st, &user_addr) {
            Some(a) => a,
            None => UserActivity::new(),
        };
        Ok(
            (
                activity.total_deposits,
                activity.total_withdrawals,
                activity.total_borrows,
                activity.total_repayments,
                activity.last_activity,
                activity.activity_count,
            ),
        )
    }

    /// Users, users active in the last day and week, transactions, and when
    /// the figures were reported.
    pub fn get_protocol_activity(st: &ProtocolState) -> (r: (u32, u32, u32, u32, u64))
        ensures
            r == (
                st.protocol_activity.total_users,
                st.protocol_activity.active_users_24h,
                st.protocol_activity.active_users_7d,
                st.protocol_activity.total_transactions,
                st.protocol_activity.last_update,
            ),
    {
        let activity = ActivityStorage::get_protocol_activity(st);
        (
            activity.total_users,
            activity.active_users_24h,
            activity.active_users_7d,
            activity.total_transactions,
            activity.last_update,
        )
    }

    /// Replaces the protocol-wide figures and announces them.
    pub fn update_protocol_stats(
        st: &mut ProtocolState,
        caller: String,
        total_users: u32,
        active_users_24h: u32,
        active_users_7d: u32,
        total_transactions: u32,
    ) -> (r: Result<(), ProtocolError>)
        ensures
            r == admin_gate(*old(st), caller@),
            r is Err ==> *final(st) == *old(st),
            r is Ok ==> {
                &&& final(st).protocol_activity == ProtocolActivity {
                    total_users,
                    active_users_24h,
                    active_users_7d,
                    total_transactions,
                    last_update: old(st).timestamp,
                }
                &&& final(st).event_log() == old(st).event_log().push(
                    (ProtocolEvent::ProtocolStatsUpdated {
                        total_users,
                        active_users_24h,
                        total_transactions,
                    }).publication(),
                )
                &&& (ProtocolState {
                    protocol_activity: old(st).protocol_activity,
                    events: old(st).events,
                    ..*final(st)
                }) == *old(st)
            },
    {
        let caller_addr = Address::from_string(&caller);
        ProtocolConfig::require_admin(st, &caller_addr)?;
        let mut activity = ActivityStorage::get_protocol_activity(st);
        let timestamp = st.timestamp;
        activity.update_stats(
            total_users,
            active_users_24h,
            active_users_7d,
            total_transactions,
            timestamp,
        );
        ActivityStorage::save_protocol_activity(st, &activity);
        let event = ProtocolEvent::ProtocolStatsUpdated {
            total_users,
            active_users_24h,
            total_transactions,
        };
        event.emit(st);
        Ok(())
    }

    /// A summary of what `user` has done: the word for the summary's kind of
    /// action, the total of that kind, and the time of the last action. An
    /// account without any action has none.
    pub fn get_recent_activity(st: &ProtocolState, user: String) -> (r: Result<
        (String, i128, u64),
        ProtocolError,
    >)
        requires
            st.wf(),
        ensures
            Self::activity_of(*st, user@).activity_count == 0 ==> r == Err::<
                (String, i128, u64),
                ProtocolError,
            >(ProtocolError::PositionNotFound),
            Self::activity_of(*st, user@).activity_count != 0 ==> r is Ok && r->Ok_0.0@
                == action_word(summary_kind(Self::activity_of(*st, user@)))@ && r->Ok_0.1
                == tracked_total(
                Self::activity_of(*st, user@),
                summary_kind(Self::activity_of(*st, user@)),
            ) && r->Ok_0.2 == Self::activity_of(*st, user@).last_activity,
    {
        let user_addr = Address::from_string(&user);
        let activity = match ActivityStorage::get_user_activity(st, &user_addr) {
            Some(a) => a,
            None => UserActivity::new(),
        };
        if activity.activity_count == 0 {
            return Err(ProtocolError::PositionNotFound);
        }
        if activity.total_repayments > 0 {
            Ok((text("repayment"), activity.total_repayments, activity.last_activity))
        } else if activity.total_borrows > 0 {
            Ok((text("borrow"), activity.total_borrows, activity.last_activity))
        } else if activity.total_withdrawals > 0 {
            Ok((text("withdrawal"), activity.total_withdrawals, activity.last_activity))
        } else {
            Ok((text("deposit"), activity.total_deposits, activity.last_activity))
        }
    }

    /// Freezes the account of `user`.
    pub fn freeze_account(st: &mut ProtocolState, caller: String, user: String) -> (r: Result<
        (),
        ProtocolError,
    >)
        requires
            old(st).wf(),
        ensures
            final(st).wf(),
            r == admin_gate(*old(st), caller@),
            r is Err ==> *final(st) == *old(st),
            r is Ok ==> {
                &&& final(st).frozen@ == old(st).frozen@.insert(user@, true)
                &&& final(st).event_log() == old(st).event_log().push(
                    (ProtocolEvent::AccountFrozen { user }).publication(),
                )
                &&& (ProtocolState {
                    frozen: old(st).frozen,
                    events: old(st).events,
                    ..*final(st)
                }) == *old(st)
            },
    {
        let caller_addr = Address::from_string(&caller);
        ProtocolConfig::require_admin(st, &caller_addr)?;
        st.frozen.insert(Address::from_string(&user), true);
        let event = ProtocolEvent::AccountFrozen { user };
        event.emit(st);
        Ok(())
    }

    /// Lifts the freeze on the account of `user`.
    pub fn unfreeze_account(st: &mut ProtocolState, caller: String, user: String) -> (r: Result<
        (),
        ProtocolError,
    >)
        requires
            old(st).wf(),
        ensures
            final(st).wf(),
            r == admin_gate(*old(st), caller@),
            r is Err ==> *final(st) == *old(st),
            r is Ok ==> {
                &&& final(st).frozen@ == old(st).frozen@.insert(user@, false)
                &&& final(st).event_log() == old(st).event_log().push(
                    (ProtocolEvent::AccountUnfrozen { user }).publication(),
                )
                &&& (ProtocolState {
                    frozen: old(st).frozen,
                    events: old(st).events,
                    ..*final(st)
                }) == *old(st)
            },
    {
        let caller_addr = Address::from_string(&caller);
        ProtocolConfig::require_admin(st, &caller_addr)?;
        st.frozen.insert(Address::from_string(&user), false);
        let event = ProtocolEvent::AccountUnfrozen { user };
        event.emit(st);
        Ok(())
    }

    /// Whether the account of `user` is frozen.
    pub fn is_account_frozen(st: &ProtocolState, user: String) -> (r: bool)
        requires
            st.wf(),
        ensures
            r == st.is_frozen(user@),
    {
        let user_addr = Address::from_string(&user);
        match st.frozen.get(&user_addr) {
            Some(f) => *f,
            None => false,
        }
    }

    /// Past reports of suspicious activity. The ledger keeps none: the list
    /// is empty.
    pub fn get_suspicious_activity_report(st: &ProtocolState) -> (r: Vec<
        (String, Address, i128, u64),
    >)
        ensures
            r@.len() == 0,
    {
        Vec::new()
    }

    /// Past changes to the blacklist. The ledger keeps none: the list is
    /// empty.
    pub fn get_blacklist_report(st: &ProtocolState) -> (r: Vec<(Address, bool, u64)>)
        ensures
            r@.len() == 0,
    {
        Vec::new()
    }

    /// Past changes of verification status. The ledger keeps none: the list
    /// is empty.
    pub fn get_kyc_report(st: &ProtocolState) -> (r: Vec<(Address, bool, u64)>)
        ensures
            r@.len() == 0,
    {
        Vec::new()
    }

    /// Whether `user` is verified, and whether `user` is blacklisted.
    pub fn get_compliance_status(st: &ProtocolState, user: Address) -> (r: (bool, bool))
        requires
            st.wf(),
        ensures
            r.0 == (st.kyc_status(user@) == KYCStatus::Verified),
            r.1 == st.is_blacklisted(user@),
    {
        let verified = match st.kyc.get(&user) {
            Some(s) => *s == KYCStatus::Verified,
            None => false,
        };
        let blacklisted = match st.blacklist.get(&user) {
            Some(f) => *f,
            None => false,
        };
        (verified, blacklisted)
    }

    /// Counts of verified, blacklisted and suspicious accounts. They are not
    /// tracked yet and read as zero.
    pub fn get_compliance_summary(st: &ProtocolState) -> (r: (u32, u32, u32))
        ensures
            r == (0u32, 0u32, 0u32),
    {
        (0, 0, 0)
    }
}

} // verus!
