//! The reserve and fee engine: what the protocol collects, what it hands to
//! the treasury, and what it still holds.
//!
//! Collecting and distributing keep the books balanced: the reserves are
//! what was collected less what was distributed. An emergency withdrawal
//! takes from the reserves without counting as a distribution.

use crate::admin::admin_gate;
use crate::errors::ProtocolError;
use crate::events::{reserve_updated, ProtocolEvent};
use crate::lending::Contract;
use crate::math::in_range;
use crate::state::{ProtocolConfig, ProtocolState};
use crate::types::{text, Address, ReserveData, RevenueMetrics};
use vstd::prelude::*;

verus! {

/// The metrics after `amount` was collected from `source`. Only the borrow
/// and the supply side have a bucket.
pub open spec fn metrics_after_collection(
    metrics: RevenueMetrics,
    source: Seq<char>,
    amount: i128,
) -> RevenueMetrics {
    if source == "borrow"@ {
        RevenueMetrics {
            total_borrow_fees: (metrics.total_borrow_fees + amount) as i128,
            ..metrics
        }
    } else if source == "supply"@ {
        RevenueMetrics {
            total_supply_fees: (metrics.total_supply_fees + amount) as i128,
            ..metrics
        }
    } else {
        metrics
    }
}

impl Contract {
    /// Names the account that distributions go to.
    pub fn set_treasury_address(st: &mut ProtocolState, caller: String, treasury: String) -> (r:
        Result<(), ProtocolError>)
        ensures
            r == admin_gate(*old(st), caller@),
            r is Err ==> *final(st) == *old(st),
            r is Ok ==> {
                &&& final(st).reserve_data == ReserveData {
                    treasury_address: Address { strkey: treasury },
                    ..old(st).reserve_data
                }
                &&& final(st).event_log() == old(st).event_log().push(
                    (ProtocolEvent::TreasuryUpdated {
                        old_address: old(st).reserve_data.treasury_address.strkey,
                        new_address: treasury,
                    }).publication(),
                )
                &&& (ProtocolState {
                    reserve_data: old(st).reserve_data,
                    events: old(st).events,
                    ..*final(st)
                }) == *old(st)
            },
    {
        let caller_addr = Address::from_string(&caller);
        ProtocolConfig::require_admin(st, &caller_addr)?;
        let old_address = st.reserve_data.treasury_address.to_string();
        st.reserve_data.treasury_address = Address::from_string(&treasury);
        let event = ProtocolEvent::TreasuryUpdated { old_address, new_address: treasury };
        event.emit(st);
        Ok(())
    }

    /// Why a collection of fees is refused, if it is.
    pub open spec fn collection_refusal(
        st: ProtocolState,
        caller: Seq<char>,
        amount: i128,
        source: Seq<char>,
    ) -> Option<ProtocolError> {
        if ProtocolConfig::admin_refusal(st, caller) is Some {
            ProtocolConfig::admin_refusal(st, caller)
        } else if amount <= 0 {
            Some(ProtocolError::InvalidAmount)
        } else if !in_range(st.reserve_data.total_fees_collected + amount) || !in_range(
            st.reserve_data.current_reserves + amount,
        ) || (source == "borrow"@ && !in_range(st.revenue_metrics.total_borrow_fees + amount)) || (
        source != "borrow"@ && source == "supply"@ && !in_range(
            st.revenue_metrics.total_supply_fees + amount,
        )) {
            Some(ProtocolError::Unknown)
        } else {
            None
        }
    }

    /// Books `amount` as fees collected from `source`.
    pub fn collect_protocol_fees(
        st: &mut ProtocolState,
        caller: String,
        amount: i128,
        source: String,
    ) -> (r: Result<(), ProtocolError>)
        ensures
            r == (match Self::collection_refusal(*old(st), caller@, amount, source@) {
                Some(e) => Err::<(), ProtocolError>(e),
                None => Ok(()),
            }),
            r is Err ==> *final(st) == *old(st),
            r is Ok ==> {
                &&& final(st).reserve_data == ReserveData {
                    total_fees_collected: (old(st).reserve_data.total_fees_collected + amount)
                        as i128,
                    current_reserves: (old(st).reserve_data.current_reserves + amount) as i128,
                    ..old(st).reserve_data
                }
                &&& final(st).revenue_metrics == metrics_after_collection(
                    old(st).revenue_metrics,
                    source@,
                    amount,
                )
                &&& final(st).event_log() == old(st).event_log().push(
                    (ProtocolEvent::FeesCollected { amount, source }).publication(),
                ).push(reserve_updated(final(st).reserve_data.current_reserves))
                &&& (ProtocolState {
                    reserve_data: old(st).reserve_data,
                    revenue_metrics: old(st).revenue_metrics,
                    events: old(st).events,
                    ..*final(st)
                }) == *old(st)
            },
            old(st).reserve_data.balanced() ==> final(st).reserve_data.balanced(),
    {
        let caller_addr = Address::from_string(&caller);
        ProtocolConfig::require_admin(st, &caller_addr)?;
        if amount <= 0 {
            return Err(ProtocolError::InvalidAmount);
        }
        let collected = match st.reserve_data.total_fees_collected.checked_add(amount) {
            Some(v) => v,
            None => { return Err(ProtocolError::Unknown); },
        };
        let reserves = match st.reserve_data.current_reserves.checked_add(amount) {
            Some(v) => v,
            None => { return Err(ProtocolError::Unknown); },
        };
        let mut metrics = st.revenue_metrics;
        if source == text("borrow") {
            metrics.total_borrow_fees = match metrics.total_borrow_fees.checked_add(amount) {
                Some(v) => v,
                None => { return Err(ProtocolError::Unknown); },
            };
        } else if source == text("supply") {
            metrics.total_supply_fees = match metrics.total_supply_fees.checked_add(amount) {
                Some(v) => v,
                None => { return Err(ProtocolError::Unknown); },
            };
        }
        st.reserve_data.total_fees_collected = collected;
        st.reserve_data.current_reserves = reserves;
        st.revenue_metrics = metrics;
        let collected_event = ProtocolEvent::FeesCollected { amount, source };
        collected_event.emit(st);
        let updated_event = ProtocolEvent::ReserveUpdated {
            total_collected: collected,
            current_reserves: reserves,
        };
        updated_event.emit(st);
        Ok(())
    }

    /// Why a distribution or an emergency withdrawal is refused before the
    /// books are touched, if it is.
    pub open spec fn payout_refusal(st: ProtocolState, caller: Seq<char>, amount: i128) -> Option<
        ProtocolError,
    > {
        if ProtocolConfig::admin_refusal(st, caller) is Some {
            ProtocolConfig::admin_refusal(st, caller)
        } else if amount <= 0 {
            Some(ProtocolError::InvalidAmount)
        } else if amount > st.reserve_data.current_reserves {
            Some(ProtocolError::InsufficientCollateral)
        } else {
            None
        }
    }

    /// Why a distribution is refused, if it is.
    pub open spec fn distribution_refusal(st: ProtocolState, caller: Seq<char>, amount: i128)
        -> Option<ProtocolError> {
        if Self::payout_refusal(st, caller, amount) is Some {
            Self::payout_refusal(st, caller, amount)
        } else if !in_range(st.reserve_data.total_fees_distributed + amount) {
            Some(ProtocolError::Unknown)
        } else {
            None
        }
    }

    /// Moves `amount` from the reserves to the treasury.
    pub fn distribute_fees_to_treasury(st: &mut ProtocolState, caller: String, amount: i128) -> (r:
        Result<(), ProtocolError>)
        ensures
            r == (match Self::distribution_refusal(*old(st), caller@, amount) {
                Some(e) => Err::<(), ProtocolError>(e),
                None => Ok(()),
            }),
            r is Err ==> *final(st) == *old(st),
            r is Ok ==> {
                &&& final(st).reserve_data == ReserveData {
                    total_fees_distributed: (old(st).reserve_data.total_fees_distributed + amount)
                        as i128,
                    current_reserves: (old(st).reserve_data.current_reserves - amount) as i128,
                    last_distribution_time: old(st).timestamp,
                    ..old(st).reserve_data
                }
                &&& final(st).event_log() == old(st).event_log().push(
                    (ProtocolEvent::FeesDistributed {
                        amount,
                        treasury: old(st).reserve_data.treasury_address.strkey,
                    }).publication(),
                ).push(reserve_updated(final(st).reserve_data.current_reserves))
                &&& (ProtocolState {
                    reserve_data: old(st).reserve_data,
                    events: old(st).events,
                    ..*final(st)
                }) == *old(st)
            },
            old(st).reserve_data.balanced() ==> final(st).reserve_data.balanced(),
    {
        let caller_addr = Address::from_string(&caller);
        ProtocolConfig::require_admin(st, &caller_addr)?;
        if amount <= 0 {
            return Err(ProtocolError::InvalidAmount);
        }
        if amount > st.reserve_data.current_reserves {
            return Err(ProtocolError::InsufficientCollateral);
        }
        let distributed = match st.reserve_data.total_fees_distributed.checked_add(amount) {
            Some(v) => v,
            None => { return Err(ProtocolError::Unknown); },
        };
        let reserves = st.reserve_data.current_reserves - amount;
        st.reserve_data.total_fees_distributed = distributed;
        st.reserve_data.current_reserves = reserves;
        st.reserve_data.last_distribution_time = st.timestamp;
        let treasury = st.reserve_data.treasury_address.to_string();
        let distributed_event = ProtocolEvent::FeesDistributed { amount, treasury };
        distributed_event.emit(st);
        let updated_event = ProtocolEvent::ReserveUpdated {
            total_collected: st.reserve_data.total_fees_collected,
            current_reserves: reserves,
        };
        updated_event.emit(st);
        Ok(())
    }

    /// Takes `amount` out of the reserves without booking a distribution.
    /// Afterwards the reserves are short of collected less distributed by
    /// `amount` more than before.
    pub fn emergency_withdraw_fees(st: &mut ProtocolState, caller: String, amount: i128) -> (r:
        Result<(), ProtocolError>)
        ensures
            r == (match Self::payout_refusal(*old(st), caller@, amount) {
                Some(e) => Err::<(), ProtocolError>(e),
                None => Ok(()),
            }),
            r is Err ==> *final(st) == *old(st),
            r is Ok ==> {
                &&& final(st).reserve_data == ReserveData {
                    current_reserves: (old(st).reserve_data.current_reserves - amount) as i128,
                    ..old(st).reserve_data
                }
                &&& final(st).reserve_data.current_reserves >= 0
                &&& final(st).event_log() == old(st).event_log().push(
                    reserve_updated(final(st).reserve_data.current_reserves),
                )
                &&& (ProtocolState {
                    reserve_data: old(st).reserve_data,
                    events: old(st).events,
                    ..*final(st)
                }) == *old(st)
            },
    {
        let caller_addr = Address::from_string(&caller);
        ProtocolConfig::require_admin(st, &caller_addr)?;
        if amount <= 0 {
            return Err(ProtocolError::InvalidAmount);
        }
        if amount > st.reserve_data.current_reserves {
            return Err(ProtocolError::InsufficientCollateral);
        }
        let reserves = st.reserve_data.current_reserves - amount;
        st.reserve_data.current_reserves = reserves;
        let updated_event = ProtocolEvent::ReserveUpdated {
            total_collected: st.reserve_data.total_fees_collected,
            current_reserves: reserves,
        };
        updated_event.emit(st);
        Ok(())
    }

    /// Collected, distributed, reserves, treasury, last distribution time
    /// and distribution frequency.
    pub fn get_reserve_data(st: &ProtocolState) -> (r: (i128, i128, i128, String, u64, u64))
        ensures
            r == (
                st.reserve_data.total_fees_collected,
                st.reserve_data.total_fees_distributed,
                st.reserve_data.current_reserves,
                st.reserve_data.treasury_address.strkey,
                st.reserve_data.last_distribution_time,
                st.reserve_data.distribution_frequency,
            ),
    {
        (
            st.reserve_data.total_fees_collected,
            st.reserve_data.total_fees_distributed,
            st.reserve_data.current_reserves,
            st.reserve_data.treasury_address.to_string(),
            st.reserve_data.last_distribution_time,
            st.reserve_data.distribution_frequency,
        )
    }

    /// Daily, weekly and monthly fees, and the totals of the borrow and the
    /// supply side.
    pub fn get_revenue_metrics(st: &ProtocolState) -> (r: (i128, i128, i128, i128, i128))
        ensures
            r == (
                st.revenue_metrics.daily_fees,
                st.revenue_metrics.weekly_fees,
                st.revenue_metrics.monthly_fees,
                st.revenue_metrics.total_borrow_fees,
                st.revenue_metrics.total_supply_fees,
            ),
    {
        let metrics = st.revenue_metrics;
        (
            metrics.daily_fees,
            metrics.weekly_fees,
            metrics.monthly_fees,
            metrics.total_borrow_fees,
            metrics.total_supply_fees,
        )
    }

    /// Sets the time in seconds between two distributions.
    pub fn set_distribution_frequency(st: &mut ProtocolState, caller: String, frequency: u64) -> (r:
        Result<(), ProtocolError>)
        ensures
            r == admin_gate(*old(st), caller@),
            r is Ok ==> *final(st) == (ProtocolState {
                reserve_data: ReserveData {
                    distribution_frequency: frequency,
                    ..old(st).reserve_data
                },
                ..*old(st)
            }),
            r is Err ==> *final(st) == *old(st),
    {
        let caller_addr = Address::from_string(&caller);
        ProtocolConfig::require_admin(st, &caller_addr)?;
        st.reserve_data.distribution_frequency = frequency;
        Ok(())
    }
}

} // verus!
