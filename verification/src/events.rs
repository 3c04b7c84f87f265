//! What the protocol announces to the outside world.
//!
//! An event is announced as a publication: two topics and a payload of
//! labelled values. The ledger collects publications in the order in which
//! they were made; delivering them is the caller's business.

use crate::state::ProtocolState;
use crate::types::Address;
use vstd::prelude::*;

verus! {

/// One value of a publication, as it is held in memory.
#[derive(Debug, PartialEq, Eq)]
pub enum EventValue {
    Symbol(&'static str),
    Text(String),
    Account(Address),
    Amount(i128),
    Count(u32),
    Time(u64),
}

/// One value of a publication, as a mathematical value.
pub enum EventItem {
    Symbol(Seq<char>),
    Text(Seq<char>),
    Account(Seq<char>),
    Amount(i128),
    Count(u32),
    Time(u64),
}

impl View for EventValue {
    type V = EventItem;

    open spec fn view(&self) -> EventItem {
        match self {
            EventValue::Symbol(s) => EventItem::Symbol(s@),
            EventValue::Text(s) => EventItem::Text(s@),
            EventValue::Account(a) => EventItem::Account(a@),
            EventValue::Amount(v) => EventItem::Amount(*v),
            EventValue::Count(v) => EventItem::Count(*v),
            EventValue::Time(v) => EventItem::Time(*v),
        }
    }
}

impl Clone for EventValue {
    fn clone(&self) -> (r: Self)
        ensures
            r == *self,
    {
        match self {
            EventValue::Symbol(s) => EventValue::Symbol(*s),
            EventValue::Text(s) => EventValue::Text(s.clone()),
            EventValue::Account(a) => EventValue::Account(a.clone()),
            EventValue::Amount(v) => EventValue::Amount(*v),
            EventValue::Count(v) => EventValue::Count(*v),
            EventValue::Time(v) => EventValue::Time(*v),
        }
    }
}

/// The mathematical values of a sequence of event values.
pub open spec fn items(values: Seq<EventValue>) -> Seq<EventItem> {
    values.map_values(|v: EventValue| v@)
}

/// A publication as a mathematical value.
pub struct Publication {
    pub topics: Seq<EventItem>,
    pub data: Seq<EventItem>,
}

/// A publication as it is held in memory.
#[derive(Debug, PartialEq, Eq)]
pub struct EventRecord {
    pub topics: Vec<EventValue>,
    pub data: Vec<EventValue>,
}

impl View for EventRecord {
    type V = Publication;

    open spec fn view(&self) -> Publication {
        Publication { topics: items(self.topics@), data: items(self.data@) }
    }
}

/// The symbol item with the characters of `s`.
pub open spec fn sym(s: &'static str) -> EventItem {
    EventItem::Symbol(s@)
}

/// A publication under two symbol topics.
pub open spec fn announcement(topic: &'static str, subject: &'static str, data: Seq<EventItem>)
    -> Publication {
    Publication { topics: seq![sym(topic), sym(subject)], data }
}

/// Money moved for an account: a deposit, borrow, repayment, withdrawal or
/// liquidation of `amount` in `asset`.
pub open spec fn movement(topic: &'static str, amount: i128, asset: Seq<char>) -> Publication {
    announcement(
        topic,
        "user",
        seq![sym("user"), EventItem::Amount(amount), sym("asset"), EventItem::Text(asset)],
    )
}

/// A fee was collected from `source`.
pub open spec fn fees_collected(source: Seq<char>) -> Publication {
    announcement("fees_collected", "amount", seq![sym("source"), EventItem::Text(source)])
}

/// The reserves changed and now stand at `current_reserves`.
pub open spec fn reserve_updated(current_reserves: i128) -> Publication {
    announcement(
        "reserve_updated",
        "total_collected",
        seq![sym("current_reserves"), EventItem::Amount(current_reserves)],
    )
}

/// An asset setting changed.
pub open spec fn asset_updated(parameter: Seq<char>, old_value: Seq<char>, new_value: Seq<char>)
    -> Publication {
    announcement(
        "asset_updated",
        "asset",
        seq![
            sym("parameter"),
            EventItem::Text(parameter),
            sym("old_value"),
            EventItem::Text(old_value),
            sym("new_value"),
            EventItem::Text(new_value),
        ],
    )
}

/// An asset was switched on or off, with the reason given.
pub open spec fn asset_switched(reason: Seq<char>) -> Publication {
    announcement("asset_disabled", "asset", seq![sym("reason"), EventItem::Text(reason)])
}

/// An account did something worth a second look.
pub open spec fn security_alert(reason: Seq<char>, count: u32) -> Publication {
    announcement(
        "security_alert",
        "user",
        seq![sym("reason"), EventItem::Text(reason), sym("count"), EventItem::Count(count)],
    )
}

/// A transfer at or above the reporting threshold.
pub open spec fn large_transfer(user: Seq<char>, action: Seq<char>, amount: i128, time: u64)
    -> Publication {
    Publication {
        topics: seq![sym("SuspiciousActivity"), EventItem::Account(user)],
        data: seq![EventItem::Text(action), EventItem::Amount(amount), EventItem::Time(time)],
    }
}

/// A payload of two values.
pub fn data2(a: EventValue, b: EventValue) -> (r: Vec<EventValue>)
    ensures
        items(r@) == seq![a@, b@],
{
    let r = vec![a, b];
    assert(items(r@) =~= seq![a@, b@]);
    r
}

/// A payload of three values.
pub fn data3(a: EventValue, b: EventValue, c: EventValue) -> (r: Vec<EventValue>)
    ensures
        items(r@) == seq![a@, b@, c@],
{
    let r = vec![a, b, c];
    assert(items(r@) =~= seq![a@, b@, c@]);
    r
}

/// A payload of four values.
pub fn data4(a: EventValue, b: EventValue, c: EventValue, d: EventValue) -> (r: Vec<EventValue>)
    ensures
        items(r@) == seq![a@, b@, c@, d@],
{
    let r = vec![a, b, c, d];
    assert(items(r@) =~= seq![a@, b@, c@, d@]);
    r
}

/// A payload of six values.
pub fn data6(
    a: EventValue,
    b: EventValue,
    c: EventValue,
    d: EventValue,
    e: EventValue,
    f: EventValue,
) -> (r: Vec<EventValue>)
    ensures
        items(r@) == seq![a@, b@, c@, d@, e@, f@],
{
    let r = vec![a, b, c, d, e, f];
    assert(items(r@) =~= seq![a@, b@, c@, d@, e@, f@]);
    r
}

/// The record of an announcement under two symbol topics.
pub fn announce(topic: &'static str, subject: &'static str, data: Vec<EventValue>) -> (r:
    EventRecord)
    ensures
        r@ == announcement(topic, subject, items(data@)),
{
    let topics = data2(EventValue::Symbol(topic), EventValue::Symbol(subject));
    EventRecord { topics, data }
}

/// The things that happen in the protocol and are announced.
#[allow(inconsistent_fields)]
#[derive(Debug, PartialEq, Eq)]
pub enum ProtocolEvent {
    Deposit { user: String, amount: i128, asset: String },
    Borrow { user: String, amount: i128, asset: String },
    Repay { user: String, amount: i128, asset: String },
    Withdraw { user: String, amount: i128, asset: String },
    Liquidate { user: String, amount: i128, asset: String },
    InterestAccrued { user: String, borrow_interest: i128, supply_interest: i128, asset: String },
    RateUpdated { borrow_rate: i128, supply_rate: i128, utilization: i128, asset: String },
    ConfigUpdated { parameter: String, old_value: i128, new_value: i128 },
    FeesCollected { amount: i128, source: String },
    FeesDistributed { amount: i128, treasury: String },
    TreasuryUpdated { old_address: String, new_address: String },
    ReserveUpdated { total_collected: i128, current_reserves: i128 },
    AssetAdded { asset: String, symbol: String, decimals: u32 },
    AssetUpdated { asset: String, parameter: String, old_value: String, new_value: String },
    AssetDisabled { asset: String, reason: String },
    UserActivityTracked { user: String, action: String, amount: i128, timestamp: u64 },
    ProtocolStatsUpdated { total_users: u32, active_users_24h: u32, total_transactions: u32 },
    AccountFrozen { user: String },
    AccountUnfrozen { user: String },
}

impl ProtocolEvent {
    /// The name of the kind of event.
    pub open spec fn kind(&self) -> &'static str {
        match self {
            ProtocolEvent::Deposit { .. } => "Deposit",
            ProtocolEvent::Borrow { .. } => "Borrow",
            ProtocolEvent::Repay { .. } => "Repay",
            ProtocolEvent::Withdraw { .. } => "Withdraw",
            ProtocolEvent::Liquidate { .. } => "Liquidate",
            ProtocolEvent::InterestAccrued { .. } => "InterestAccrued",
            ProtocolEvent::RateUpdated { .. } => "RateUpdated",
            ProtocolEvent::ConfigUpdated { .. } => "ConfigUpdated",
            ProtocolEvent::FeesCollected { .. } => "FeesCollected",
            ProtocolEvent::FeesDistributed { .. } => "FeesDistributed",
            ProtocolEvent::TreasuryUpdated { .. } => "TreasuryUpdated",
            ProtocolEvent::ReserveUpdated { .. } => "ReserveUpdated",
            ProtocolEvent::AssetAdded { .. } => "AssetAdded",
            ProtocolEvent::AssetUpdated { .. } => "AssetUpdated",
            ProtocolEvent::AssetDisabled { .. } => "AssetDisabled",
            ProtocolEvent::UserActivityTracked { .. } => "UserActivityTracked",
            ProtocolEvent::ProtocolStatsUpdated { .. } => "ProtocolStatsUpdated",
            ProtocolEvent::AccountFrozen { .. } => "AccountFrozen",
            ProtocolEvent::AccountUnfrozen { .. } => "AccountUnfrozen",
        }
    }

    /// The topics and the payload under which the event is announced.
    pub open spec fn publication(&self) -> Publication {
        match self {
            ProtocolEvent::Deposit { user, amount, asset } => movement("deposit", *amount, asset@),
            ProtocolEvent::Borrow { user, amount, asset } => movement("borrow", *amount, asset@),
            ProtocolEvent::Repay { user, amount, asset } => movement("repay", *amount, asset@),
            ProtocolEvent::Withdraw { user, amount, asset } => movement(
                "withdraw",
                *amount,
                asset@,
            ),
            ProtocolEvent::Liquidate { user, amount, asset } => movement(
                "liquidate",
                *amount,
                asset@,
            ),
            ProtocolEvent::InterestAccrued { user, borrow_interest, supply_interest, asset } => {
                announcement(
                    "interest_accrued",
                    "user",
                    seq![
                        sym("borrow_interest"),
                        EventItem::Amount(*borrow_interest),
                        sym("supply_interest"),
                        EventItem::Amount(*supply_interest),
                        sym("asset"),
                        EventItem::Text(asset@),
                    ],
                )
            },
            ProtocolEvent::RateUpdated { borrow_rate, supply_rate, utilization, asset } => {
                announcement(
                    "rate_updated",
                    "borrow_rate",
                    seq![
                        sym("supply_rate"),
                        EventItem::Amount(*supply_rate),
                        sym("utilization"),
                        EventItem::Amount(*utilization),
                        sym("asset"),
                        EventItem::Text(asset@),
                    ],
                )
            },
            ProtocolEvent::ConfigUpdated { parameter, old_value, new_value } => announcement(
                "config_updated",
                "parameter",
                seq![
                    sym("old_value"),
                    EventItem::Amount(*old_value),
                    sym("new_value"),
                    EventItem::Amount(*new_value),
                ],
            ),
            ProtocolEvent::FeesCollected { amount, source } => fees_collected(source@),
            ProtocolEvent::FeesDistributed { amount, treasury } => announcement(
                "fees_distributed",
                "amount",
                seq![sym("treasury"), EventItem::Text(treasury@)],
            ),
            ProtocolEvent::TreasuryUpdated { old_address, new_address } => announcement(
                "treasury_updated",
                "old_address",
                seq![sym("new_address"), EventItem::Text(new_address@)],
            ),
            ProtocolEvent::ReserveUpdated { total_collected, current_reserves } => reserve_updated(
                *current_reserves,
            ),
            ProtocolEvent::AssetAdded { asset, symbol, decimals } => announcement(
                "asset_added",
                "asset",
                seq![
                    sym("symbol"),
                    EventItem::Text(symbol@),
                    sym("decimals"),
                    EventItem::Count(*decimals),
                ],
            ),
            ProtocolEvent::AssetUpdated { asset, parameter, old_value, new_value } => asset_updated(
                parameter@,
                old_value@,
                new_value@,
            ),
            ProtocolEvent::AssetDisabled { asset, reason } => asset_switched(reason@),
            ProtocolEvent::UserActivityTracked { user, action, amount, timestamp } => announcement(
                "user_activity",
                "user",
                seq![
                    sym("action"),
                    EventItem::Text(action@),
                    sym("amount"),
                    EventItem::Amount(*amount),
                    sym("timestamp"),
                    EventItem::Time(*timestamp),
                ],
            ),
            ProtocolEvent::ProtocolStatsUpdated {
                total_users,
                active_users_24h,
                total_transactions,
            } => announcement(
                "protocol_stats",
                "total_users",
                seq![
                    sym("active_users_24h"),
                    EventItem::Count(*active_users_24h),
                    sym("total_transactions"),
                    EventItem::Count(*total_transactions),
                ],
            ),
            ProtocolEvent::AccountFrozen { user } => announcement(
                "account_frozen",
                "user",
                seq![sym("user"), EventItem::Text(user@)],
            ),
            ProtocolEvent::AccountUnfrozen { user } => announcement(
                "account_unfrozen",
                "user",
                seq![sym("user"), EventItem::Text(user@)],
            ),
        }
    }

    /// The name of the kind of event.
    pub fn to_str(&self) -> (r: &'static str)
        ensures
            r == self.kind(),
    {
        match self {
            ProtocolEvent::Deposit { .. } => "Deposit",
            ProtocolEvent::Borrow { .. } => "Borrow",
            ProtocolEvent::Repay { .. } => "Repay",
            ProtocolEvent::Withdraw { .. } => "Withdraw",
            ProtocolEvent::Liquidate { .. } => "Liquidate",
            ProtocolEvent::InterestAccrued { .. } => "InterestAccrued",
            ProtocolEvent::RateUpdated { .. } => "RateUpdated",
            ProtocolEvent::ConfigUpdated { .. } => "ConfigUpdated",
            ProtocolEvent::FeesCollected { .. } => "FeesCollected",
            ProtocolEvent::FeesDistributed { .. } => "FeesDistributed",
            ProtocolEvent::TreasuryUpdated { .. } => "TreasuryUpdated",
            ProtocolEvent::ReserveUpdated { .. } => "ReserveUpdated",
            ProtocolEvent::AssetAdded { .. } => "AssetAdded",
            ProtocolEvent::AssetUpdated { .. } => "AssetUpdated",
            ProtocolEvent::AssetDisabled { .. } => "AssetDisabled",
            ProtocolEvent::UserActivityTracked { .. } => "UserActivityTracked",
            ProtocolEvent::ProtocolStatsUpdated { .. } => "ProtocolStatsUpdated",
            ProtocolEvent::AccountFrozen { .. } => "AccountFrozen",
            ProtocolEvent::AccountUnfrozen { .. } => "AccountUnfrozen",
        }
    }

    /// Announces the event: its publication goes to the end of the ledger's
    /// log, and nothing else changes.
    pub fn emit(&self, st: &mut ProtocolState)
        ensures
            final(st).event_log() == old(st).event_log().push(self.publication()),
            (ProtocolState { events: old(st).events, ..*final(st) }) == *old(st),
    {
        st.publish(self.to_record());
    }

    /// The event as the record that is handed to the event sink.
    pub fn to_record(&self) -> (r: EventRecord)
        ensures
            r@ == self.publication(),
    {
        match self {
            ProtocolEvent::Deposit { user: _, amount, asset } => announce(
                "deposit",
                "user",
                data4(
                    EventValue::Symbol("user"),
                    EventValue::Amount(*amount),
                    EventValue::Symbol("asset"),
                    EventValue::Text(asset.clone()),
                ),
            ),
            ProtocolEvent::Borrow { user: _, amount, asset } => announce(
                "borrow",
                "user",
                data4(
                    EventValue::Symbol("user"),
                    EventValue::Amount(*amount),
                    EventValue::Symbol("asset"),
                    EventValue::Text(asset.clone()),
                ),
            ),
            ProtocolEvent::Repay { user: _, amount, asset } => announce(
                "repay",
                "user",
                data4(
                    EventValue::Symbol("user"),
                    EventValue::Amount(*amount),
                    EventValue::Symbol("asset"),
                    EventValue::Text(asset.clone()),
                ),
            ),
            ProtocolEvent::Withdraw { user: _, amount, asset } => announce(
                "withdraw",
                "user",
                data4(
                    EventValue::Symbol("user"),
                    EventValue::Amount(*amount),
                    EventValue::Symbol("asset"),
                    EventValue::Text(asset.clone()),
                ),
            ),
            ProtocolEvent::Liquidate { user: _, amount, asset } => announce(
                "liquidate",
                "user",
                data4(
                    EventValue::Symbol("user"),
                    EventValue::Amount(*amount),
                    EventValue::Symbol("asset"),
                    EventValue::Text(asset.clone()),
                ),
            ),
            ProtocolEvent::InterestAccrued { user: _, borrow_interest, supply_interest, asset } => {
                announce(
                    "interest_accrued",
                    "user",
                    data6(
                        EventValue::Symbol("borrow_interest"),
                        EventValue::Amount(*borrow_interest),
                        EventValue::Symbol("supply_interest"),
                        EventValue::Amount(*supply_interest),
                        EventValue::Symbol("asset"),
                        EventValue::Text(asset.clone()),
                    ),
                )
            },
            ProtocolEvent::RateUpdated { borrow_rate: _, supply_rate, utilization, asset } => {
                announce(
                    "rate_updated",
                    "borrow_rate",
                    data6(
                        EventValue::Symbol("supply_rate"),
                        EventValue::Amount(*supply_rate),
                        EventValue::Symbol("utilization"),
                        EventValue::Amount(*utilization),
                        EventValue::Symbol("asset"),
                        EventValue::Text(asset.clone()),
                    ),
                )
            },
            ProtocolEvent::ConfigUpdated { parameter: _, old_value, new_value } => announce(
                "config_updated",
                "parameter",
                data4(
                    EventValue::Symbol("old_value"),
                    EventValue::Amount(*old_value),
                    EventValue::Symbol("new_value"),
                    EventValue::Amount(*new_value),
                ),
            ),
            ProtocolEvent::FeesCollected { amount: _, source } => announce(
                "fees_collected",
                "amount",
                data2(EventValue::Symbol("source"), EventValue::Text(source.clone())),
            ),
            ProtocolEvent::FeesDistributed { amount: _, treasury } => announce(
                "fees_distributed",
                "amount",
                data2(EventValue::Symbol("treasury"), EventValue::Text(treasury.clone())),
            ),
            ProtocolEvent::TreasuryUpdated { old_address: _, new_address } => announce(
                "treasury_updated",
                "old_address",
                data2(EventValue::Symbol("new_address"), EventValue::Text(new_address.clone())),
            ),
            ProtocolEvent::ReserveUpdated { total_collected: _, current_reserves } => announce(
                "reserve_updated",
                "total_collected",
                data2(
                    EventValue::Symbol("current_reserves"),
                    EventValue::Amount(*current_reserves),
                ),
            ),
            ProtocolEvent::AssetAdded { asset: _, symbol, decimals } => announce(
                "asset_added",
                "asset",
                data4(
                    EventValue::Symbol("symbol"),
                    EventValue::Text(symbol.clone()),
                    EventValue::Symbol("decimals"),
                    EventValue::Count(*decimals),
                ),
            ),
            ProtocolEvent::AssetUpdated { asset: _, parameter, old_value, new_value } => announce(
                "asset_updated",
                "asset",
                data6(
                    EventValue::Symbol("parameter"),
                    EventValue::Text(parameter.clone()),
                    EventValue::Symbol("old_value"),
                    EventValue::Text(old_value.clone()),
                    EventValue::Symbol("new_value"),
                    EventValue::Text(new_value.clone()),
                ),
            ),
            ProtocolEvent::AssetDisabled { asset: _, reason } => announce(
                "asset_disabled",
                "asset",
                data2(EventValue::Symbol("reason"), EventValue::Text(reason.clone())),
            ),
            ProtocolEvent::UserActivityTracked { user: _, action, amount, timestamp } => announce(
                "user_activity",
                "user",
                data6(
                    EventValue::Symbol("action"),
                    EventValue::Text(action.clone()),
                    EventValue::Symbol("amount"),
                    EventValue::Amount(*amount),
                    EventValue::Symbol("timestamp"),
                    EventValue::Time(*timestamp),
                ),
            ),
            ProtocolEvent::ProtocolStatsUpdated {
                total_users: _,
                active_users_24h,
                total_transactions,
            } => announce(
                "protocol_stats",
                "total_users",
                data4(
                    EventValue::Symbol("active_users_24h"),
                    EventValue::Count(*active_users_24h),
                    EventValue::Symbol("total_transactions"),
                    EventValue::Count(*total_transactions),
                ),
            ),
            ProtocolEvent::AccountFrozen { user } => announce(
                "account_frozen",
                "user",
                data2(EventValue::Symbol("user"), EventValue::Text(user.clone())),
            ),
            ProtocolEvent::AccountUnfrozen { user } => announce(
                "account_unfrozen",
                "user",
                data2(EventValue::Symbol("user"), EventValue::Text(user.clone())),
            ),
        }
    }
}

/// Changes to the set of administrators.
#[derive(Debug, PartialEq, Eq)]
pub enum GovernanceEvent {
    AdminAdded(Address, Address),
    AdminRemoved(Address, Address),
    AdminTransferred(Address, Address, Address),
}

/// Steps in the life of an asset proposal.
#[derive(Debug, PartialEq, Eq)]
pub enum ProposalEvent {
    AssetProposed(u32, Address, String, String),
    AssetApproved(u32, Address, String),
    AssetRejected(u32, Address, String),
    AssetCancelled(u32, Address, String),
}

} // verus!
