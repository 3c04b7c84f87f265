//! The position ledger and the liquidation engine: deposit, borrow, repay,
//! withdraw and liquidate.
//!
//! Every operation first decides whether it can be carried out, and changes
//! the ledger only when it can: a refused operation leaves the ledger as it
//! was. Before an amount is applied, the rates are recomputed and the interest
//! of the position is accrued. An operation whose arithmetic would leave the
//! 128-bit range is refused with `Unknown`.

use crate::errors::ProtocolError;
use crate::events::{
    data2, data3, fees_collected, large_transfer, movement, EventRecord, EventValue,
    ProtocolEvent, Publication,
};
use crate::interest::{
    accrual_fits, accrued, protocol_share, protocol_share_fits, rates_fit, InterestRateManager,
};
use crate::math::{in_range, mul_div_fits};
use crate::oracle::{PriceOracle, RealPriceOracle};
use crate::risk::{
    checked_ratio, checked_repay_amount, checked_seized_collateral, ratio, ratio_fits,
    repay_amount, seized_collateral, seizure_fits,
};
use crate::state::{
    BlacklistStorage, FrozenAccounts, InterestRateStorage, ProtocolState, ReentrancyGuard,
    StateHelper,
};
use crate::types::{
    text, Address, InterestRateState, Position, ReserveData, RevenueMetrics, DEFAULT_ASSET,
};
use vstd::prelude::*;

verus! {

/// Transfers of at least this amount are announced as large.
pub const AML_LARGE_TX_THRESHOLD: i128 = 100_000_000;

/// Why a transfer of `amount` for the account `who` is turned away before
/// anything is computed, if it is.
pub open spec fn movement_refusal(st: ProtocolState, who: Seq<char>, amount: i128, paused: bool)
    -> Option<ProtocolError> {
    if who.len() == 0 {
        Some(ProtocolError::InvalidAddress)
    } else if amount <= 0 {
        Some(ProtocolError::InvalidAmount)
    } else if paused {
        Some(ProtocolError::ProtocolPaused)
    } else if st.is_frozen(who) || st.is_blacklisted(who) {
        Some(ProtocolError::Unauthorized)
    } else {
        None
    }
}

/// The rates can be recomputed and the interest of `user` accrued.
pub open spec fn accrual_ready(st: ProtocolState, user: Address) -> bool {
    &&& rates_fit(st.interest_state, st.interest_config)
    &&& accrual_fits(
        st.position_of(user),
        st.timestamp,
        InterestRateStorage::refreshed(st).current_borrow_rate,
        InterestRateStorage::refreshed(st).current_supply_rate,
    )
}

/// The position of `user` with its interest accrued at the recomputed rates.
pub open spec fn accrued_position(st: ProtocolState, user: Address) -> Position {
    accrued(
        st.position_of(user),
        st.timestamp,
        InterestRateStorage::refreshed(st).current_borrow_rate,
        InterestRateStorage::refreshed(st).current_supply_rate,
    )
}

/// The protocol's share of the interest a position has accrued so far.
pub open spec fn fee_on(interest: i128, reserve_factor: i128) -> int {
    if interest > 0 {
        protocol_share(interest as int, reserve_factor as int)
    } else {
        0
    }
}

/// The share can be computed and booked into the reserves and the bucket of
/// its source.
pub open spec fn fee_fits(interest: i128, reserve_factor: i128, reserve: ReserveData, bucket: i128)
    -> bool {
    interest > 0 ==> {
        &&& protocol_share_fits(interest as int, reserve_factor as int)
        &&& fee_on(interest, reserve_factor) > 0 ==> {
            &&& in_range(reserve.total_fees_collected + fee_on(interest, reserve_factor))
            &&& in_range(reserve.current_reserves + fee_on(interest, reserve_factor))
            &&& in_range(bucket + fee_on(interest, reserve_factor))
        }
    }
}

/// The reserves after a fee went into them. A fee that is not positive is
/// not booked.
pub open spec fn reserve_after_fee(reserve: ReserveData, fee: int) -> ReserveData {
    if fee > 0 {
        ReserveData {
            total_fees_collected: (reserve.total_fees_collected + fee) as i128,
            current_reserves: (reserve.current_reserves + fee) as i128,
            ..reserve
        }
    } else {
        reserve
    }
}

/// A bucket of the revenue metrics after a fee went into it.
pub open spec fn bucket_after_fee(bucket: i128, fee: int) -> i128 {
    if fee > 0 {
        (bucket + fee) as i128
    } else {
        bucket
    }
}

/// The announcement of a large transfer, where the amount calls for one.
pub open spec fn large_transfer_notes(who: Seq<char>, action: &'static str, amount: i128, now: u64)
    -> Seq<Publication> {
    if amount >= AML_LARGE_TX_THRESHOLD {
        seq![large_transfer(who, action@, amount, now)]
    } else {
        Seq::empty()
    }
}

/// The announcement of a collected fee, where one was booked.
pub open spec fn fee_notes(fee: int, source: &'static str) -> Seq<Publication> {
    if fee > 0 {
        seq![fees_collected(source@)]
    } else {
        Seq::empty()
    }
}

/// Succeeds when the account has passed identity verification. Every
/// account counts as verified.
pub fn require_kyc(st: &ProtocolState, user: &Address) -> (r: Result<(), ProtocolError>)
    ensures
        r is Ok,
{
    Ok(())
}

/// Succeeds when the account is not blacklisted.
pub fn require_not_blacklisted(st: &ProtocolState, user: &Address) -> (r: Result<
    (),
    ProtocolError,
>)
    requires
        st.wf(),
    ensures
        r == (if st.is_blacklisted(user@) {
            Err::<(), ProtocolError>(ProtocolError::Unauthorized)
        } else {
            Ok(())
        }),
{
    if BlacklistStorage::is_blacklisted(st, user) {
        return Err(ProtocolError::Unauthorized);
    }
    Ok(())
}

/// Announces a transfer at or above the reporting threshold. The transfer
/// itself is never held up.
pub fn check_aml(st: &mut ProtocolState, user: &Address, amount: i128, action: &'static str) -> (r:
    Result<(), ProtocolError>)
    ensures
        r is Ok,
        final(st).event_log() == old(st).event_log() + large_transfer_notes(
            user@,
            action,
            amount,
            old(st).timestamp,
        ),
        (ProtocolState { events: old(st).events, ..*final(st) }) == *old(st),
{
    if amount >= AML_LARGE_TX_THRESHOLD {
        let record = EventRecord {
            topics: data2(
                EventValue::Symbol("SuspiciousActivity"),
                EventValue::Account(user.clone()),
            ),
            data: data3(
                EventValue::Text(action.to_string()),
                EventValue::Amount(amount),
                EventValue::Time(st.timestamp),
            ),
        };
        st.publish(record);
    }
    assert(st.event_log() =~= old(st).event_log() + large_transfer_notes(
        user@,
        action,
        amount,
        old(st).timestamp,
    ));
    Ok(())
}

/// The main entry points of the protocol.
pub struct Contract;

impl Contract {
    /// The position can be brought up to date and the deposit and the fee on the
    /// supply interest booked.
    pub open spec fn deposit_fits(st: ProtocolState, user: Address, amount: i128) -> bool {
        let p = accrued_position(st, user);
        &&& accrual_ready(st, user)
        &&& in_range(p.collateral + amount)
        &&& in_range(InterestRateStorage::refreshed(st).total_supplied + amount)
        &&& fee_fits(
            p.supply_interest,
            st.interest_config.reserve_factor,
            st.reserve_data,
            st.revenue_metrics.total_supply_fees,
        )
    }

    /// Why a deposit is turned away once the lock is passed, if it is.
    pub open spec fn deposit_checks(st: ProtocolState, depositor: String, amount: i128) -> Option<
        ProtocolError,
    > {
        if movement_refusal(st, depositor@, amount, st.risk_config.pause_deposit) is Some {
            movement_refusal(st, depositor@, amount, st.risk_config.pause_deposit)
        } else if !Self::deposit_fits(st, Address { strkey: depositor }, amount) {
            Some(ProtocolError::Unknown)
        } else {
            None
        }
    }

    /// Why a deposit is refused, if it is.
    pub open spec fn deposit_refusal(st: ProtocolState, depositor: String, amount: i128) -> Option<
        ProtocolError,
    > {
        if st.reentrancy_locked {
            Some(ProtocolError::Unknown)
        } else {
            Self::deposit_checks(st, depositor, amount)
        }
    }

    /// What a deposit that was carried out has changed: the collateral and
    /// the total supplied grew by the amount, the protocol's share of the
    /// supply interest accrued so far went to the reserves, and the deposit
    /// was announced.
    pub open spec fn deposit_applied(
        pre: ProtocolState,
        post: ProtocolState,
        depositor: String,
        amount: i128,
    ) -> bool {
        let p = accrued_position(pre, Address { strkey: depositor });
        let rates = InterestRateStorage::refreshed(pre);
        let fee = fee_on(p.supply_interest, pre.interest_config.reserve_factor);
        &&& post.positions@ == pre.positions@.insert(
            depositor@,
            Position { collateral: (p.collateral + amount) as i128, ..p },
        )
        &&& post.interest_state == InterestRateState {
            total_supplied: (rates.total_supplied + amount) as i128,
            ..rates
        }
        &&& post.reserve_data == reserve_after_fee(pre.reserve_data, fee)
        &&& post.revenue_metrics == RevenueMetrics {
            total_supply_fees: bucket_after_fee(pre.revenue_metrics.total_supply_fees, fee),
            ..pre.revenue_metrics
        }
        &&& post.event_log() == (pre.event_log() + large_transfer_notes(
            depositor@,
            "deposit",
            amount,
            pre.timestamp,
        ) + fee_notes(fee, "supply")).push(movement("deposit", amount, DEFAULT_ASSET@))
        &&& (ProtocolState {
            positions: pre.positions,
            interest_state: pre.interest_state,
            reserve_data: pre.reserve_data,
            revenue_metrics: pre.revenue_metrics,
            events: pre.events,
            ..post
        }) == pre
    }

    /// Decides whether funds may be moved for `who`, and returns the account.
    pub fn screen(st: &ProtocolState, who: &String, amount: i128, paused: bool) -> (r: Result<
        Address,
        ProtocolError,
    >)
        requires
            st.wf(),
        ensures
            match r {
                Ok(a) => movement_refusal(*st, who@, amount, paused) is None && a.strkey == *who,
                Err(e) => movement_refusal(*st, who@, amount, paused) == Some(e),
            },
    {
        if who.as_str().is_empty() {
            return Err(ProtocolError::InvalidAddress);
        }
        if amount <= 0 {
            return Err(ProtocolError::InvalidAmount);
        }
        if paused {
            return Err(ProtocolError::ProtocolPaused);
        }
        let account = Address::from_string(who);
        if FrozenAccounts::is_frozen(st, &account) {
            return Err(ProtocolError::Unauthorized);
        }
        require_kyc(st, &account)?;
        require_not_blacklisted(st, &account)?;
        Ok(account)
    }

    /// The recomputed rates and the position of `user` with its interest
    /// accrued, without touching the ledger.
    pub fn accrue_account(st: &ProtocolState, user: &Address) -> (r: Result<
        (InterestRateState, Position),
        ProtocolError,
    >)
        requires
            st.wf(),
        ensures
            r == (if accrual_ready(*st, *user) {
                Ok::<(InterestRateState, Position), ProtocolError>(
                    (InterestRateStorage::refreshed(*st), accrued_position(*st, *user)),
                )
            } else {
                Err::<(InterestRateState, Position), ProtocolError>(ProtocolError::Unknown)
            }),
    {
        let rates = match InterestRateManager::checked_update_rates(
            st.timestamp,
            &st.interest_state,
            &st.interest_config,
        ) {
            Some(v) => v,
            None => { return Err(ProtocolError::Unknown); },
        };
        let position = match StateHelper::get_position(st, user) {
            Some(p) => p,
            None => Position::new(user.clone(), 0, 0),
        };
        match InterestRateManager::checked_accrue(
            st.timestamp,
            &position,
            rates.current_borrow_rate,
            rates.current_supply_rate,
        ) {
            Some(p) => Ok((rates, p)),
            None => Err(ProtocolError::Unknown),
        }
    }

    /// The protocol's share of `interest`, provided it can be booked.
    pub fn fee_due(interest: i128, reserve_factor: i128, reserve: &ReserveData, bucket: i128) -> (r:
        Result<i128, ProtocolError>)
        ensures
            r == (if fee_fits(interest, reserve_factor, *reserve, bucket) {
                Ok::<i128, ProtocolError>(fee_on(interest, reserve_factor) as i128)
            } else {
                Err::<i128, ProtocolError>(ProtocolError::Unknown)
            }),
    {
        if interest <= 0 {
            return Ok(0);
        }
        let fee = match InterestRateManager::checked_protocol_share(interest, reserve_factor) {
            Some(v) => v,
            None => { return Err(ProtocolError::Unknown); },
        };
        if fee > 0 {
            if reserve.total_fees_collected.checked_add(fee).is_none()
                || reserve.current_reserves.checked_add(fee).is_none() || bucket.checked_add(
                fee,
            ).is_none() {
                return Err(ProtocolError::Unknown);
            }
        }
        Ok(fee)
    }

    /// Books a fee into the reserves and announces it. A fee that is not
    /// positive is neither booked nor announced.
    pub fn book_fee(st: &mut ProtocolState, fee: i128, borrow_side: bool)
        requires
            fee > 0 ==> in_range(old(st).reserve_data.total_fees_collected + fee) && in_range(
                old(st).reserve_data.current_reserves + fee,
            ) && in_range(
                (if borrow_side {
                    old(st).revenue_metrics.total_borrow_fees
                } else {
                    old(st).revenue_metrics.total_supply_fees
                }) + fee,
            ),
        ensures
            final(st).reserve_data == reserve_after_fee(old(st).reserve_data, fee as int),
            final(st).revenue_metrics == (if borrow_side {
                RevenueMetrics {
                    total_borrow_fees: bucket_after_fee(
                        old(st).revenue_metrics.total_borrow_fees,
                        fee as int,
                    ),
                    ..old(st).revenue_metrics
                }
            } else {
                RevenueMetrics {
                    total_supply_fees: bucket_after_fee(
                        old(st).revenue_metrics.total_supply_fees,
                        fee as int,
                    ),
                    ..old(st).revenue_metrics
                }
            }),
            final(st).event_log() == old(st).event_log() + fee_notes(
                fee as int,
                if borrow_side {
                    "borrow"
                } else {
                    "supply"
                },
            ),
            (ProtocolState {
                reserve_data: old(st).reserve_data,
                revenue_metrics: old(st).revenue_metrics,
                events: old(st).events,
                ..*final(st)
            }) == *old(st),
    {
        if fee > 0 {
            st.reserve_data.total_fees_collected = st.reserve_data.total_fees_collected + fee;
            st.reserve_data.current_reserves = st.reserve_data.current_reserves + fee;
            if borrow_side {
                st.revenue_metrics.total_borrow_fees = st.revenue_metrics.total_borrow_fees + fee;
            } else {
                st.revenue_metrics.total_supply_fees = st.revenue_metrics.total_supply_fees + fee;
            }
            let source = if borrow_side {
                text("borrow")
            } else {
                text("supply")
            };
            let event = ProtocolEvent::FeesCollected { amount: fee, source };
            event.emit(st);
        }
        assert(st.event_log() =~= old(st).event_log() + fee_notes(
            fee as int,
            if borrow_side {
                "borrow"
            } else {
                "supply"
            },
        ));
    }

    fn unguarded_deposit(st: &mut ProtocolState, depositor: String, amount: i128) -> (r: Result<
        (),
        ProtocolError,
    >)
        requires
            old(st).wf(),
        ensures
            final(st).wf(),
            r == (match Self::deposit_checks(*old(st), depositor, amount) {
                Some(e) => Err::<(), ProtocolError>(e),
                None => Ok(()),
            }),
            r is Err ==> *final(st) == *old(st),
            r is Ok ==> Self::deposit_applied(*old(st), *final(st), depositor, amount),
    {
        let account = Self::screen(st, &depositor, amount, st.risk_config.pause_deposit)?;
        let (rates, mut position) = Self::accrue_account(st, &account)?;
        let collateral = match position.collateral.checked_add(amount) {
            Some(v) => v,
            None => { return Err(ProtocolError::Unknown); },
        };
        let total_supplied = match rates.total_supplied.checked_add(amount) {
            Some(v) => v,
            None => { return Err(ProtocolError::Unknown); },
        };
        let fee = Self::fee_due(
            position.supply_interest,
            st.interest_config.reserve_factor,
            &st.reserve_data,
            st.revenue_metrics.total_supply_fees,
        )?;
        check_aml(st, &account, amount, "deposit")?;
        position.collateral = collateral;
        StateHelper::save_position(st, &position);
        let mut next = rates;
        next.total_supplied = total_supplied;
        InterestRateStorage::save_state(st, &next);
        Self::book_fee(st, fee, false);
        let event = ProtocolEvent::Deposit { user: depositor, amount, asset: text(DEFAULT_ASSET) };
        event.emit(st);
        Ok(())
    }

    /// Adds `amount` to the collateral of `depositor`.
    pub fn deposit_collateral(st: &mut ProtocolState, depositor: String, amount: i128) -> (r:
        Result<(), ProtocolError>)
        requires
            old(st).wf(),
        ensures
            final(st).wf(),
            r == (match Self::deposit_refusal(*old(st), depositor, amount) {
                Some(e) => Err::<(), ProtocolError>(e),
                None => Ok(()),
            }),
            r is Err ==> *final(st) == *old(st),
            r is Ok ==> Self::deposit_applied(*old(st), *final(st), depositor, amount),
    {
        ReentrancyGuard::enter(st)?;
        let result = Self::unguarded_deposit(st, depositor, amount);
        ReentrancyGuard::exit(st);
        match result {
            Ok(()) => {
                assert(Self::deposit_refusal(*old(st), depositor, amount) is None);
                Ok(())
            },
            Err(e) => {
                assert(Self::deposit_refusal(*old(st), depositor, amount) == Some(e));
                Err(e)
            },
        }
    }

    /// The position of the borrower can be brought up to date and priced
    /// with the new debt.
    pub open spec fn borrow_priceable(st: ProtocolState, user: Address, amount: i128) -> bool {
        let p = accrued_position(st, user);
        &&& accrual_ready(st, user)
        &&& in_range(p.debt + amount)
        &&& ratio_fits(
            p.collateral as int,
            RealPriceOracle::quote(st) as int,
            p.debt + amount,
        )
    }

    /// The ratio the borrower would have with the new debt.
    pub open spec fn ratio_after_borrow(st: ProtocolState, user: Address, amount: i128) -> int {
        let p = accrued_position(st, user);
        ratio(p.collateral as int, RealPriceOracle::quote(st) as int, p.debt + amount)
    }

    /// The new total and the fee on the borrow interest can be booked.
    pub open spec fn borrow_bookable(st: ProtocolState, user: Address, amount: i128) -> bool {
        let p = accrued_position(st, user);
        &&& in_range(InterestRateStorage::refreshed(st).total_borrowed + amount)
        &&& fee_fits(
            p.borrow_interest,
            st.interest_config.reserve_factor,
            st.reserve_data,
            st.revenue_metrics.total_borrow_fees,
        )
    }

    /// Why a borrow is turned away once the lock is passed, if it is.
    pub open spec fn borrow_checks(st: ProtocolState, borrower: String, amount: i128) -> Option<
        ProtocolError,
    > {
        let user = Address { strkey: borrower };
        if movement_refusal(st, borrower@, amount, st.risk_config.pause_borrow) is Some {
            movement_refusal(st, borrower@, amount, st.risk_config.pause_borrow)
        } else if !Self::borrow_priceable(st, user, amount) {
            Some(ProtocolError::Unknown)
        } else if Self::ratio_after_borrow(st, user, amount) < st.min_collateral_ratio {
            Some(ProtocolError::InsufficientCollateralRatio)
        } else if !Self::borrow_bookable(st, user, amount) {
            Some(ProtocolError::Unknown)
        } else {
            None
        }
    }

    /// Why a borrow is refused, if it is.
    pub open spec fn borrow_refusal(st: ProtocolState, borrower: String, amount: i128) -> Option<
        ProtocolError,
    > {
        if st.reentrancy_locked {
            Some(ProtocolError::Unknown)
        } else {
            Self::borrow_checks(st, borrower, amount)
        }
    }

    /// What a borrow that was carried out has changed: the debt and the
    /// total borrowed grew by the amount, the quoted price was stored if the
    /// feed's price was accepted, the protocol's share of the borrow
    /// interest accrued so far went to the reserves, and the borrow was
    /// announced.
    pub open spec fn borrow_applied(
        pre: ProtocolState,
        post: ProtocolState,
        borrower: String,
        amount: i128,
    ) -> bool {
        let p = accrued_position(pre, Address { strkey: borrower });
        let rates = InterestRateStorage::refreshed(pre);
        let fee = fee_on(p.borrow_interest, pre.interest_config.reserve_factor);
        &&& post.positions@ == pre.positions@.insert(
            borrower@,
            Position { debt: (p.debt + amount) as i128, ..p },
        )
        &&& post.interest_state == InterestRateState {
            total_borrowed: (rates.total_borrowed + amount) as i128,
            ..rates
        }
        &&& post.reserve_data == reserve_after_fee(pre.reserve_data, fee)
        &&& post.revenue_metrics == RevenueMetrics {
            total_borrow_fees: bucket_after_fee(pre.revenue_metrics.total_borrow_fees, fee),
            ..pre.revenue_metrics
        }
        &&& post.oracle_price == RealPriceOracle::after_quote(pre).oracle_price
        &&& post.oracle_last_update == RealPriceOracle::after_quote(pre).oracle_last_update
        &&& post.event_log() == (pre.event_log() + large_transfer_notes(
            borrower@,
            "borrow",
            amount,
            pre.timestamp,
        ) + fee_notes(fee, "borrow")).push(movement("borrow", amount, DEFAULT_ASSET@))
        &&& (ProtocolState {
            positions: pre.positions,
            interest_state: pre.interest_state,
            reserve_data: pre.reserve_data,
            revenue_metrics: pre.revenue_metrics,
            oracle_price: pre.oracle_price,
            oracle_last_update: pre.oracle_last_update,
            events: pre.events,
            ..post
        }) == pre
    }

    /// Stores the quoted price where the feed's price was accepted.
    fn keep_quote(st: &mut ProtocolState, price: i128, accepted: bool)
        requires
            price == RealPriceOracle::quote(*old(st)),
            accepted == RealPriceOracle::accepts(*old(st)),
        ensures
            *final(st) == RealPriceOracle::after_quote(*old(st)),
    {
        if accepted {
            st.oracle_price = price;
            st.oracle_last_update = st.timestamp;
        }
    }

    fn unguarded_borrow(st: &mut ProtocolState, borrower: String, amount: i128) -> (r: Result<
        (),
        ProtocolError,
    >)
        requires
            old(st).wf(),
        ensures
            final(st).wf(),
            r == (match Self::borrow_checks(*old(st), borrower, amount) {
                Some(e) => Err::<(), ProtocolError>(e),
                None => Ok(()),
            }),
            r is Err ==> *final(st) == *old(st),
            r is Ok ==> Self::borrow_applied(*old(st), *final(st), borrower, amount),
    {
        let account = Self::screen(st, &borrower, amount, st.risk_config.pause_borrow)?;
        let (rates, mut position) = Self::accrue_account(st, &account)?;
        let debt = match position.debt.checked_add(amount) {
            Some(v) => v,
            None => { return Err(ProtocolError::Unknown); },
        };
        let (price, accepted) = RealPriceOracle::peek(st);
        let ratio = match checked_ratio(position.collateral, price, debt) {
            Some(v) => v,
            None => { return Err(ProtocolError::Unknown); },
        };
        if ratio < st.min_collateral_ratio {
            return Err(ProtocolError::InsufficientCollateralRatio);
        }
        let total_borrowed = match rates.total_borrowed.checked_add(amount) {
            Some(v) => v,
            None => { return Err(ProtocolError::Unknown); },
        };
        let fee = Self::fee_due(
            position.borrow_interest,
            st.interest_config.reserve_factor,
            &st.reserve_data,
            st.revenue_metrics.total_borrow_fees,
        )?;
        check_aml(st, &account, amount, "borrow")?;
        Self::keep_quote(st, price, accepted);
        position.debt = debt;
        StateHelper::save_position(st, &position);
        let mut next = rates;
        next.total_borrowed = total_borrowed;
        InterestRateStorage::save_state(st, &next);
        Self::book_fee(st, fee, true);
        let event = ProtocolEvent::Borrow { user: borrower, amount, asset: text(DEFAULT_ASSET) };
        event.emit(st);
        Ok(())
    }

    /// Adds `amount` to the debt of `borrower`, provided the collateral at
    /// the quoted price still covers the minimum ratio afterwards.
    pub fn borrow(st: &mut ProtocolState, borrower: String, amount: i128) -> (r: Result<
        (),
        ProtocolError,
    >)
        requires
            old(st).wf(),
        ensures
            final(st).wf(),
            r == (match Self::borrow_refusal(*old(st), borrower, amount) {
                Some(e) => Err::<(), ProtocolError>(e),
                None => Ok(()),
            }),
            r is Err ==> *final(st) == *old(st),
            r is Ok ==> Self::borrow_applied(*old(st), *final(st), borrower, amount),
    {
        ReentrancyGuard::enter(st)?;
        let result = Self::unguarded_borrow(st, borrower, amount);
        ReentrancyGuard::exit(st);
        match result {
            Ok(()) => {
                assert(Self::borrow_refusal(*old(st), borrower, amount) is None);
                Ok(())
            },
            Err(e) => {
                assert(Self::borrow_refusal(*old(st), borrower, amount) == Some(e));
                Err(e)
            },
        }
    }

    /// The debt that is left after a repayment; never below zero.
    pub open spec fn debt_after_repay(debt: i128, amount: i128) -> int {
        if debt - amount > 0 {
            debt - amount
        } else {
            0
        }
    }

    /// The position can be brought up to date and the repayment booked.
    pub open spec fn repay_fits(st: ProtocolState, user: Address, amount: i128) -> bool {
        let p = accrued_position(st, user);
        &&& accrual_ready(st, user)
        &&& in_range(p.debt - amount)
        &&& in_range(
            InterestRateStorage::refreshed(st).total_borrowed - (p.debt - Self::debt_after_repay(
                p.debt,
                amount,
            )),
        )
    }

    /// Why a repayment is turned away once the lock is passed, if it is.
    pub open spec fn repay_checks(st: ProtocolState, repayer: String, amount: i128) -> Option<
        ProtocolError,
    > {
        if movement_refusal(st, repayer@, amount, false) is Some {
            movement_refusal(st, repayer@, amount, false)
        } else if !Self::repay_fits(st, Address { strkey: repayer }, amount) {
            Some(ProtocolError::Unknown)
        } else {
            None
        }
    }

    /// Why a repayment is refused, if it is.
    pub open spec fn repay_refusal(st: ProtocolState, repayer: String, amount: i128) -> Option<
        ProtocolError,
    > {
        if st.reentrancy_locked {
            Some(ProtocolError::Unknown)
        } else {
            Self::repay_checks(st, repayer, amount)
        }
    }

    /// What a repayment that was carried out has changed: the debt fell by
    /// the amount, but not below zero; the total borrowed fell by as much as
    /// the debt; and the repayment was announced.
    pub open spec fn repay_applied(
        pre: ProtocolState,
        post: ProtocolState,
        repayer: String,
        amount: i128,
    ) -> bool {
        let p = accrued_position(pre, Address { strkey: repayer });
        let rates = InterestRateStorage::refreshed(pre);
        let left = Self::debt_after_repay(p.debt, amount);
        &&& post.positions@ == pre.positions@.insert(repayer@, Position { debt: left as i128, ..p })
        &&& post.interest_state == InterestRateState {
            total_borrowed: (rates.total_borrowed - (p.debt - left)) as i128,
            ..rates
        }
        &&& post.event_log() == (pre.event_log() + large_transfer_notes(
            repayer@,
            "repay",
            amount,
            pre.timestamp,
        )).push(movement("repay", amount, DEFAULT_ASSET@))
        &&& (ProtocolState {
            positions: pre.positions,
            interest_state: pre.interest_state,
            events: pre.events,
            ..post
        }) == pre
    }

    fn unguarded_repay(st: &mut ProtocolState, repayer: String, amount: i128) -> (r: Result<
        (),
        ProtocolError,
    >)
        requires
            old(st).wf(),
        ensures
            final(st).wf(),
            r == (match Self::repay_checks(*old(st), repayer, amount) {
                Some(e) => Err::<(), ProtocolError>(e),
                None => Ok(()),
            }),
            r is Err ==> *final(st) == *old(st),
            r is Ok ==> Self::repay_applied(*old(st), *final(st), repayer, amount),
    {
        let account = Self::screen(st, &repayer, amount, false)?;
        let (rates, mut position) = Self::accrue_account(st, &account)?;
        let reduced = match position.debt.checked_sub(amount) {
            Some(v) => v,
            None => { return Err(ProtocolError::Unknown); },
        };
        let left: i128 = if reduced > 0 {
            reduced
        } else {
            0
        };
        let paid = match position.debt.checked_sub(left) {
            Some(v) => v,
            None => { return Err(ProtocolError::Unknown); },
        };
        let total_borrowed = match rates.total_borrowed.checked_sub(paid) {
            Some(v) => v,
            None => { return Err(ProtocolError::Unknown); },
        };
        check_aml(st, &account, amount, "repay")?;
        position.debt = left;
        StateHelper::save_position(st, &position);
        let mut next = rates;
        next.total_borrowed = total_borrowed;
        InterestRateStorage::save_state(st, &next);
        let event = ProtocolEvent::Repay { user: repayer, amount, asset: text(DEFAULT_ASSET) };
        event.emit(st);
        Ok(())
    }

    /// Takes `amount` off the debt of `repayer`; what exceeds the debt is
    /// ignored.
    pub fn repay(st: &mut ProtocolState, repayer: String, amount: i128) -> (r: Result<
        (),
        ProtocolError,
    >)
        requires
            old(st).wf(),
        ensures
            final(st).wf(),
            r == (match Self::repay_refusal(*old(st), repayer, amount) {
                Some(e) => Err::<(), ProtocolError>(e),
                None => Ok(()),
            }),
            r is Err ==> *final(st) == *old(st),
            r is Ok ==> Self::repay_applied(*old(st), *final(st), repayer, amount),
    {
        ReentrancyGuard::enter(st)?;
        let result = Self::unguarded_repay(st, repayer, amount);
        ReentrancyGuard::exit(st);
        match result {
            Ok(()) => {
                assert(Self::repay_refusal(*old(st), repayer, amount) is None);
                Ok(())
            },
            Err(e) => {
                assert(Self::repay_refusal(*old(st), repayer, amount) == Some(e));
                Err(e)
            },
        }
    }

    /// The position left after the withdrawal can be priced; a position
    /// without debt is not priced.
    pub open spec fn withdraw_priceable(st: ProtocolState, user: Address, amount: i128) -> bool {
        let p = accrued_position(st, user);
        p.debt != 0 ==> ratio_fits(
            p.collateral - amount,
            RealPriceOracle::quote(st) as int,
            p.debt as int,
        )
    }

    /// The ratio the account would have after the withdrawal.
    pub open spec fn ratio_after_withdraw(st: ProtocolState, user: Address, amount: i128) -> int {
        let p = accrued_position(st, user);
        ratio(p.collateral - amount, RealPriceOracle::quote(st) as int, p.debt as int)
    }

    /// Why a withdrawal is refused, if it is.
    pub open spec fn withdraw_refusal(st: ProtocolState, withdrawer: String, amount: i128)
        -> Option<ProtocolError> {
        let user = Address { strkey: withdrawer };
        let p = accrued_position(st, user);
        if movement_refusal(st, withdrawer@, amount, st.risk_config.pause_withdraw) is Some {
            movement_refusal(st, withdrawer@, amount, st.risk_config.pause_withdraw)
        } else if !accrual_ready(st, user) {
            Some(ProtocolError::Unknown)
        } else if p.collateral < amount {
            Some(ProtocolError::InsufficientCollateral)
        } else if !Self::withdraw_priceable(st, user, amount) {
            Some(ProtocolError::Unknown)
        } else if p.debt > 0 && Self::ratio_after_withdraw(st, user, amount)
            < st.min_collateral_ratio {
            Some(ProtocolError::InsufficientCollateralRatio)
        } else if !in_range(InterestRateStorage::refreshed(st).total_supplied - amount) {
            Some(ProtocolError::Unknown)
        } else {
            None
        }
    }

    /// What a withdrawal that was carried out has changed: the collateral
    /// and the total supplied fell by the amount, the quoted price was
    /// stored if the position was priced and the feed's price accepted, and
    /// the withdrawal was announced.
    pub open spec fn withdraw_applied(
        pre: ProtocolState,
        post: ProtocolState,
        withdrawer: String,
        amount: i128,
    ) -> bool {
        let p = accrued_position(pre, Address { strkey: withdrawer });
        let rates = InterestRateStorage::refreshed(pre);
        let priced = if p.debt != 0 {
            RealPriceOracle::after_quote(pre)
        } else {
            pre
        };
        &&& post.positions@ == pre.positions@.insert(
            withdrawer@,
            Position { collateral: (p.collateral - amount) as i128, ..p },
        )
        &&& post.interest_state == InterestRateState {
            total_supplied: (rates.total_supplied - amount) as i128,
            ..rates
        }
        &&& post.oracle_price == priced.oracle_price
        &&& post.oracle_last_update == priced.oracle_last_update
        &&& post.event_log() == (pre.event_log() + large_transfer_notes(
            withdrawer@,
            "withdraw",
            amount,
            pre.timestamp,
        )).push(movement("withdraw", amount, DEFAULT_ASSET@))
        &&& (ProtocolState {
            positions: pre.positions,
            interest_state: pre.interest_state,
            oracle_price: pre.oracle_price,
            oracle_last_update: pre.oracle_last_update,
            events: pre.events,
            ..post
        }) == pre
    }

    /// Takes `amount` out of the collateral of `withdrawer`. With debt
    /// outstanding, the position that would be left is priced first, and the
    /// withdrawal is refused where it would fall below the minimum ratio.
    pub fn withdraw(st: &mut ProtocolState, withdrawer: String, amount: i128) -> (r: Result<
        (),
        ProtocolError,
    >)
        requires
            old(st).wf(),
        ensures
            final(st).wf(),
            r == (match Self::withdraw_refusal(*old(st), withdrawer, amount) {
                Some(e) => Err::<(), ProtocolError>(e),
                None => Ok(()),
            }),
            r is Err ==> *final(st) == *old(st),
            r is Ok ==> Self::withdraw_applied(*old(st), *final(st), withdrawer, amount),
    {
        let account = Self::screen(st, &withdrawer, amount, st.risk_config.pause_withdraw)?;
        let (rates, mut position) = Self::accrue_account(st, &account)?;
        if position.collateral < amount {
            return Err(ProtocolError::InsufficientCollateral);
        }
        let collateral = position.collateral - amount;
        let priced = position.debt != 0;
        let (price, accepted) = RealPriceOracle::peek(st);
        if priced {
            let ratio = match checked_ratio(collateral, price, position.debt) {
                Some(v) => v,
                None => { return Err(ProtocolError::Unknown); },
            };
            if position.debt > 0 && ratio < st.min_collateral_ratio {
                return Err(ProtocolError::InsufficientCollateralRatio);
            }
        }
        let total_supplied = match rates.total_supplied.checked_sub(amount) {
            Some(v) => v,
            None => { return Err(ProtocolError::Unknown); },
        };
        check_aml(st, &account, amount, "withdraw")?;
        if priced {
            Self::keep_quote(st, price, accepted);
        }
        position.collateral = collateral;
        StateHelper::save_position(st, &position);
        let mut next = rates;
        next.total_supplied = total_supplied;
        InterestRateStorage::save_state(st, &next);
        let event = ProtocolEvent::Withdraw { user: withdrawer, amount, asset: text(DEFAULT_ASSET) };
        event.emit(st);
        Ok(())
    }

    /// The position of the target can be priced; a position without debt is
    /// not priced.
    pub open spec fn liquidation_priceable(st: ProtocolState, target: Address) -> bool {
        let p = accrued_position(st, target);
        p.debt != 0 ==> ratio_fits(
            p.collateral as int,
            RealPriceOracle::quote(st) as int,
            p.debt as int,
        )
    }

    /// The ratio of the target's position at the quoted price.
    pub open spec fn ratio_of(st: ProtocolState, target: Address) -> int {
        let p = accrued_position(st, target);
        ratio(p.collateral as int, RealPriceOracle::quote(st) as int, p.debt as int)
    }

    /// What a liquidation of the target repays for the requested amount.
    pub open spec fn liquidation_repay(st: ProtocolState, target: Address, requested: i128)
        -> int {
        repay_amount(
            requested as int,
            accrued_position(st, target).debt as int,
            st.risk_config.close_factor as int,
        )
    }

    /// What a liquidation of the target takes from its collateral.
    pub open spec fn liquidation_seizure(st: ProtocolState, target: Address, requested: i128)
        -> int {
        seized_collateral(
            Self::liquidation_repay(st, target, requested),
            st.risk_config.liquidation_incentive as int,
            accrued_position(st, target).collateral as int,
        )
    }

    /// The repaid debt and the seized collateral can be taken off the
    /// position and the total.
    pub open spec fn liquidation_bookable(st: ProtocolState, target: Address, requested: i128)
        -> bool {
        let p = accrued_position(st, target);
        let repaid = Self::liquidation_repay(st, target, requested);
        &&& seizure_fits(repaid, st.risk_config.liquidation_incentive as int)
        &&& in_range(p.debt - repaid)
        &&& in_range(p.collateral - Self::liquidation_seizure(st, target, requested))
        &&& in_range(InterestRateStorage::refreshed(st).total_borrowed - repaid)
    }

    /// Why a liquidation is refused, if it is.
    pub open spec fn liquidate_refusal(
        st: ProtocolState,
        liquidator: String,
        target: String,
        amount: i128,
    ) -> Option<ProtocolError> {
        let account = Address { strkey: target };
        if liquidator@.len() == 0 || target@.len() == 0 {
            Some(ProtocolError::InvalidAddress)
        } else if amount <= 0 {
            Some(ProtocolError::InvalidAmount)
        } else if st.risk_config.pause_liquidate {
            Some(ProtocolError::ProtocolPaused)
        } else if st.is_frozen(target@) {
            Some(ProtocolError::Unauthorized)
        } else if !st.positions@.contains_key(target@) {
            Some(ProtocolError::PositionNotFound)
        } else if !accrual_ready(st, account) || !Self::liquidation_priceable(st, account) {
            Some(ProtocolError::Unknown)
        } else if Self::ratio_of(st, account) >= st.min_collateral_ratio {
            Some(ProtocolError::NotEligibleForLiquidation)
        } else if !mul_div_fits(
            accrued_position(st, account).debt as int,
            st.risk_config.close_factor as int,
            100_000_000,
        ) {
            Some(ProtocolError::Unknown)
        } else if Self::liquidation_repay(st, account, amount) == 0 {
            Some(ProtocolError::InvalidAmount)
        } else if !Self::liquidation_bookable(st, account, amount) {
            Some(ProtocolError::Unknown)
        } else {
            None
        }
    }

    /// What a liquidation that was carried out has changed: the debt and the
    /// total borrowed fell by what was repaid, the collateral by what was
    /// seized, the quoted price was stored if the feed's price was accepted,
    /// and the liquidation was announced with the amount repaid.
    pub open spec fn liquidate_applied(
        pre: ProtocolState,
        post: ProtocolState,
        target: String,
        amount: i128,
    ) -> bool {
        let account = Address { strkey: target };
        let p = accrued_position(pre, account);
        let rates = InterestRateStorage::refreshed(pre);
        let repaid = Self::liquidation_repay(pre, account, amount);
        let seized = Self::liquidation_seizure(pre, account, amount);
        &&& post.positions@ == pre.positions@.insert(
            target@,
            Position {
                debt: (p.debt - repaid) as i128,
                collateral: (p.collateral - seized) as i128,
                ..p
            },
        )
        &&& post.interest_state == InterestRateState {
            total_borrowed: (rates.total_borrowed - repaid) as i128,
            ..rates
        }
        &&& post.oracle_price == RealPriceOracle::after_quote(pre).oracle_price
        &&& post.oracle_last_update == RealPriceOracle::after_quote(pre).oracle_last_update
        &&& post.event_log() == pre.event_log().push(
            movement("liquidate", repaid as i128, DEFAULT_ASSET@),
        )
        &&& (ProtocolState {
            positions: pre.positions,
            interest_state: pre.interest_state,
            oracle_price: pre.oracle_price,
            oracle_last_update: pre.oracle_last_update,
            events: pre.events,
            ..post
        }) == pre
    }

    /// Repays part of the debt of an undercollateralized position and hands
    /// collateral, with a bonus, to the liquidator.
    pub fn liquidate(st: &mut ProtocolState, liquidator: String, target: String, amount: i128) -> (r:
        Result<(), ProtocolError>)
        requires
            old(st).wf(),
        ensures
            final(st).wf(),
            r == (match Self::liquidate_refusal(*old(st), liquidator, target, amount) {
                Some(e) => Err::<(), ProtocolError>(e),
                None => Ok(()),
            }),
            r is Err ==> *final(st) == *old(st),
            r is Ok ==> Self::liquidate_applied(*old(st), *final(st), target, amount),
    {
        if liquidator.as_str().is_empty() || target.as_str().is_empty() {
            return Err(ProtocolError::InvalidAddress);
        }
        if amount <= 0 {
            return Err(ProtocolError::InvalidAmount);
        }
        if st.risk_config.pause_liquidate {
            return Err(ProtocolError::ProtocolPaused);
        }
        let account = Address::from_string(&target);
        if FrozenAccounts::is_frozen(st, &account) {
            return Err(ProtocolError::Unauthorized);
        }
        if !st.positions.contains_key(&account) {
            return Err(ProtocolError::PositionNotFound);
        }
        let (rates, mut position) = Self::accrue_account(st, &account)?;
        let (price, accepted) = RealPriceOracle::peek(st);
        let ratio = match checked_ratio(position.collateral, price, position.debt) {
            Some(v) => v,
            None => { return Err(ProtocolError::Unknown); },
        };
        if ratio >= st.min_collateral_ratio {
            return Err(ProtocolError::NotEligibleForLiquidation);
        }
        let repaid = match checked_repay_amount(amount, position.debt, st.risk_config.close_factor) {
            Some(v) => v,
            None => { return Err(ProtocolError::Unknown); },
        };
        if repaid == 0 {
            return Err(ProtocolError::InvalidAmount);
        }
        let seized = match checked_seized_collateral(
            repaid,
            st.risk_config.liquidation_incentive,
            position.collateral,
        ) {
            Some(v) => v,
            None => { return Err(ProtocolError::Unknown); },
        };
        let debt = match position.debt.checked_sub(repaid) {
            Some(v) => v,
            None => { return Err(ProtocolError::Unknown); },
        };
        let collateral = match position.collateral.checked_sub(seized) {
            Some(v) => v,
            None => { return Err(ProtocolError::Unknown); },
        };
        let total_borrowed = match rates.total_borrowed.checked_sub(repaid) {
            Some(v) => v,
            None => { return Err(ProtocolError::Unknown); },
        };
        Self::keep_quote(st, price, accepted);
        position.debt = debt;
        position.collateral = collateral;
        StateHelper::save_position(st, &position);
        let mut next = rates;
        next.total_borrowed = total_borrowed;
        InterestRateStorage::save_state(st, &next);
        let event = ProtocolEvent::Liquidate {
            user: target,
            amount: repaid,
            asset: text(DEFAULT_ASSET),
        };
        event.emit(st);
        Ok(())
    }
}

} // verus!
