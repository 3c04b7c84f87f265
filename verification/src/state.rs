//! The ledger: everything the protocol remembers between two calls, and the
//! typed repositories through which the operations read and write it.
//!
//! The caller samples the clock once, at the start of a call, and puts the
//! sample into `timestamp`. Publications made during a call are appended to
//! `events`; the caller delivers them.

use crate::config::{
    configurations, ConfigurationBackup, ConfigurationProposal, ConfigurationView,
    ProtocolConfiguration,
};
use crate::errors::ProtocolError;
use crate::events::{security_alert, announce, data4, EventRecord, EventValue, Publication};
use crate::interest::{rates_fit, updated_rates, InterestRateManager};
use crate::oracle::PriceOracle;
use crate::risk::{checked_plain_ratio, checked_ratio, plain_ratio, plain_ratio_fits, ratio, ratio_fits};
use crate::table::Table;
use crate::types::{
    text, Address, AssetInfo, AssetPosition, AssetPositionKey, AssetProposal, AssetRegistry,
    InterestRateConfig, InterestRateState, KYCStatus, Position, ProtocolActivity, ReserveData,
    RevenueMetrics, RiskConfig, UserActivity, DEFAULT_ASSET,
};
use vstd::prelude::*;

verus! {

/// No identity occurs twice in `list`.
pub open spec fn distinct(list: Seq<Address>) -> bool {
    forall|i: int, j: int| 0 <= i < j < list.len() ==> list[i]@ != list[j]@
}

/// The publications of a list of records.
pub open spec fn publications(records: Seq<EventRecord>) -> Seq<Publication> {
    records.map_values(|r: EventRecord| r@)
}

/// `after` holds an entry for `key` and agrees with `before` on every other
/// key.
pub open spec fn changed_only_at<K, V>(after: Map<K, V>, before: Map<K, V>, key: K) -> bool {
    after.contains_key(key) && after.remove(key) == before.remove(key)
}

/// The ledger of the protocol.
pub struct ProtocolState {
    /// The clock sample of the running call, in seconds.
    pub timestamp: u64,
    /// Set while a guarded operation runs.
    pub reentrancy_locked: bool,
    pub admin: Option<Address>,
    pub oracle: Option<Address>,
    pub min_collateral_ratio: i128,
    pub oracle_price: i128,
    pub oracle_last_update: u64,
    pub max_price_deviation: i128,
    pub heartbeat: u64,
    pub fallback_price: i128,
    pub risk_config: RiskConfig,
    pub interest_config: InterestRateConfig,
    pub interest_state: InterestRateState,
    pub reserve_data: ReserveData,
    pub revenue_metrics: RevenueMetrics,
    pub positions: Table<Address, Position>,
    pub user_activity: Table<Address, UserActivity>,
    pub protocol_activity: ProtocolActivity,
    pub asset_registry: AssetRegistry,
    pub assets: Table<String, AssetInfo>,
    pub asset_positions: Table<AssetPositionKey, AssetPosition>,
    pub kyc: Table<Address, KYCStatus>,
    pub frozen: Table<Address, bool>,
    pub blacklist: Table<Address, bool>,
    pub suspicious: Table<Address, u32>,
    /// The administrators, once the set was written; before that the single
    /// administrator of `admin` stands for it.
    pub admin_set: Option<Vec<Address>>,
    pub asset_proposals: Table<u32, AssetProposal>,
    pub proposal_counter: u32,
    pub current_config: Option<ProtocolConfiguration>,
    pub config_history: Vec<ProtocolConfiguration>,
    pub backups: Table<u32, ConfigurationBackup>,
    pub next_backup_id: u32,
    pub config_proposals: Table<u32, ConfigurationProposal>,
    pub next_proposal_id: u32,
    pub version_counter: u32,
    /// Publications not yet delivered, oldest first.
    pub events: Vec<EventRecord>,
}

impl ProtocolState {
    /// Every repository is a well-formed table, each position is filed under
    /// its own account and holds neither negative collateral nor negative
    /// debt, no administrator is listed twice, the version counter has not
    /// fallen behind the version of the active configuration nor behind the
    /// version held in any backup, and the history holds no more than ten
    /// versions.
    pub open spec fn wf(&self) -> bool {
        &&& self.positions.wf()
        &&& self.user_activity.wf()
        &&& self.assets.wf()
        &&& self.asset_positions.wf()
        &&& self.kyc.wf()
        &&& self.frozen.wf()
        &&& self.blacklist.wf()
        &&& self.suspicious.wf()
        &&& self.asset_proposals.wf()
        &&& self.backups.wf()
        &&& self.config_proposals.wf()
        &&& forall|k: Seq<char>| #[trigger]
            self.positions@.contains_key(k) ==> self.positions@[k].user@ == k
                && self.positions@[k].collateral >= 0 && self.positions@[k].debt >= 0
        &&& self.admin_set is Some ==> distinct(self.admin_set->0@)
        &&& self.current_config is Some ==> self.current_config->0.version.version
            <= self.version_counter
        &&& self.config_history@.len() <= 10
        &&& forall|id: u32| #[trigger]
            self.backups@.contains_key(id) ==> self.backups@[id].configuration.version.version
                <= self.version_counter
    }

    /// The publications waiting for delivery.
    pub open spec fn event_log(&self) -> Seq<Publication> {
        publications(self.events@)
    }

    /// The version history as mathematical values, oldest first.
    pub open spec fn history(&self) -> Seq<ConfigurationView> {
        configurations(self.config_history@)
    }

    /// The account is frozen.
    pub open spec fn is_frozen(&self, user: Seq<char>) -> bool {
        self.frozen@.contains_key(user) && self.frozen@[user]
    }

    /// The account is blacklisted.
    pub open spec fn is_blacklisted(&self, user: Seq<char>) -> bool {
        self.blacklist@.contains_key(user) && self.blacklist@[user]
    }

    /// How often the account was reported as suspicious.
    pub open spec fn suspicious_count(&self, user: Seq<char>) -> u32 {
        if self.suspicious@.contains_key(user) {
            self.suspicious@[user]
        } else {
            0
        }
    }

    /// The verification status of the account.
    pub open spec fn kyc_status(&self, user: Seq<char>) -> KYCStatus {
        if self.kyc@.contains_key(user) {
            self.kyc@[user]
        } else {
            KYCStatus::Pending
        }
    }

    /// The position of the account, or an empty one if it has none yet.
    pub open spec fn position_of(&self, user: Address) -> Position {
        if self.positions@.contains_key(user@) {
            self.positions@[user@]
        } else {
            Position::opened(user, 0, 0)
        }
    }

    /// The administrators: the written set, or else the single
    /// administrator, or else nobody.
    pub open spec fn admins(&self) -> Seq<Address> {
        match self.admin_set {
            Some(set) => set@,
            None => match self.admin {
                Some(a) => seq![a],
                None => Seq::empty(),
            },
        }
    }

    /// `who` is one of the administrators.
    pub open spec fn is_admin(&self, who: Seq<char>) -> bool {
        exists|i: int| 0 <= i < self.admins().len() && #[trigger] self.admins()[i]@ == who
    }

    /// A ledger on which nothing has happened yet.
    pub open spec fn is_fresh(&self) -> bool {
        &&& self.timestamp == 0
        &&& !self.reentrancy_locked
        &&& self.admin is None
        &&& self.oracle is None
        &&& self.min_collateral_ratio == 150
        &&& self.oracle_price == 0
        &&& self.oracle_last_update == 0
        &&& self.max_price_deviation == 50
        &&& self.heartbeat == 3600
        &&& self.fallback_price == 150_000_000
        &&& self.risk_config == RiskConfig::standard()
        &&& self.interest_config == InterestRateConfig::standard()
        &&& self.interest_state == InterestRateState::zero()
        &&& self.reserve_data.is_initial()
        &&& self.revenue_metrics == RevenueMetrics::zero()
        &&& self.positions@ == Map::<Seq<char>, Position>::empty()
        &&& self.user_activity@ == Map::<Seq<char>, UserActivity>::empty()
        &&& self.protocol_activity == ProtocolActivity::zero()
        &&& self.asset_registry.supported_assets@.len() == 1
        &&& self.asset_registry.supported_assets@[0]@ == DEFAULT_ASSET@
        &&& self.asset_registry.default_asset@ == DEFAULT_ASSET@
        &&& self.asset_registry.last_update == 0
        &&& self.assets@ == Map::<Seq<char>, AssetInfo>::empty()
        &&& self.asset_positions@ == Map::<(Seq<char>, Seq<char>), AssetPosition>::empty()
        &&& self.kyc@ == Map::<Seq<char>, KYCStatus>::empty()
        &&& self.frozen@ == Map::<Seq<char>, bool>::empty()
        &&& self.blacklist@ == Map::<Seq<char>, bool>::empty()
        &&& self.suspicious@ == Map::<Seq<char>, u32>::empty()
        &&& self.admin_set is None
        &&& self.asset_proposals@ == Map::<u32, AssetProposal>::empty()
        &&& self.proposal_counter == 0
        &&& self.current_config is None
        &&& self.config_history@.len() == 0
        &&& self.backups@ == Map::<u32, ConfigurationBackup>::empty()
        &&& self.next_backup_id == 0
        &&& self.config_proposals@ == Map::<u32, ConfigurationProposal>::empty()
        &&& self.next_proposal_id == 0
        &&& self.version_counter == 0
        &&& self.events@.len() == 0
    }

    /// A ledger on which nothing has happened yet.
    pub fn new() -> (r: Self)
        ensures
            r.wf(),
            r.is_fresh(),
    {
        ProtocolState {
            timestamp: 0,
            reentrancy_locked: false,
            admin: None,
            oracle: None,
            min_collateral_ratio: 150,
            oracle_price: 0,
            oracle_last_update: 0,
            max_price_deviation: 50,
            heartbeat: 3600,
            fallback_price: 150_000_000,
            risk_config: RiskConfig::default(),
            interest_config: InterestRateConfig::default(),
            interest_state: InterestRateState::initial(),
            reserve_data: ReserveData::default(),
            revenue_metrics: RevenueMetrics::default(),
            positions: Table::new(),
            user_activity: Table::new(),
            protocol_activity: ProtocolActivity::new(),
            asset_registry: AssetRegistry::new(text(DEFAULT_ASSET)),
            assets: Table::new(),
            asset_positions: Table::new(),
            kyc: Table::new(),
            frozen: Table::new(),
            blacklist: Table::new(),
            suspicious: Table::new(),
            admin_set: None,
            asset_proposals: Table::new(),
            proposal_counter: 0,
            current_config: None,
            config_history: Vec::new(),
            backups: Table::new(),
            next_backup_id: 0,
            config_proposals: Table::new(),
            next_proposal_id: 0,
            version_counter: 0,
            events: Vec::new(),
        }
    }

    /// Appends a publication to the log.
    pub fn publish(&mut self, record: EventRecord)
        ensures
            final(self).event_log() == old(self).event_log().push(record@),
            (ProtocolState { events: old(self).events, ..*final(self) }) == *old(self),
    {
        self.events.push(record);
        assert(publications(self.events@) =~= publications(old(self).events@).push(record@));
    }
}

/// The lock that keeps a guarded operation from being entered again while
/// it runs.
pub struct ReentrancyGuard;

impl ReentrancyGuard {
    /// Takes the lock, or fails where it is taken.
    pub fn enter(st: &mut ProtocolState) -> (r: Result<(), ProtocolError>)
        ensures
            old(st).reentrancy_locked ==> r == Err::<(), ProtocolError>(ProtocolError::Unknown)
                && *final(st) == *old(st),
            !old(st).reentrancy_locked ==> r is Ok && *final(st) == (ProtocolState {
                reentrancy_locked: true,
                ..*old(st)
            }),
    {
        if st.reentrancy_locked {
            return Err(ProtocolError::Unknown);
        }
        st.reentrancy_locked = true;
        Ok(())
    }

    /// Releases the lock.
    pub fn exit(st: &mut ProtocolState)
        ensures
            *final(st) == (ProtocolState { reentrancy_locked: false, ..*old(st) }),
    {
        st.reentrancy_locked = false;
    }
}

/// Counts, per account, the reports of suspicious behaviour.
pub struct SecurityMonitor;

impl SecurityMonitor {
    /// Counts one more report against `user` and announces it.
    pub fn record_suspicious(st: &mut ProtocolState, user: &Address, reason: &str)
        requires
            old(st).wf(),
            old(st).suspicious_count(user@) < u32::MAX,
        ensures
            final(st).wf(),
            final(st).suspicious@ == old(st).suspicious@.insert(
                user@,
                (old(st).suspicious_count(user@) + 1) as u32,
            ),
            final(st).event_log() == old(st).event_log().push(
                security_alert(reason@, (old(st).suspicious_count(user@) + 1) as u32),
            ),
            (ProtocolState {
                suspicious: old(st).suspicious,
                events: old(st).events,
                ..*final(st)
            }) == *old(st),
    {
        let count = Self::get_suspicious_count(st, user) + 1;
        st.suspicious.insert(user.clone(), count);
        let record = announce(
            "security_alert",
            "user",
            data4(
                EventValue::Symbol("reason"),
                EventValue::Text(reason.to_string()),
                EventValue::Symbol("count"),
                EventValue::Count(count),
            ),
        );
        st.publish(record);
    }

    /// How often `user` was reported.
    pub fn get_suspicious_count(st: &ProtocolState, user: &Address) -> (r: u32)
        requires
            st.wf(),
        ensures
            r == st.suspicious_count(user@),
    {
        match st.suspicious.get(user) {
            Some(c) => *c,
            None => 0,
        }
    }
}

/// The repository of the risk settings.
pub struct RiskConfigStorage;

impl RiskConfigStorage {
    /// Stores the risk settings.
    pub fn save(st: &mut ProtocolState, config: &RiskConfig)
        ensures
            *final(st) == (ProtocolState { risk_config: *config, ..*old(st) }),
    {
        st.risk_config = *config;
    }

    /// The risk settings.
    pub fn get(st: &ProtocolState) -> (r: RiskConfig)
        ensures
            r == st.risk_config,
    {
        st.risk_config
    }
}

/// The repository of the reserve bookkeeping and the revenue metrics.
pub struct ReserveStorage;

impl ReserveStorage {
    /// Stores the reserve bookkeeping.
    pub fn save_reserve_data(st: &mut ProtocolState, data: &ReserveData)
        ensures
            *final(st) == (ProtocolState { reserve_data: *data, ..*old(st) }),
    {
        st.reserve_data = data.clone();
    }

    /// The reserve bookkeeping.
    pub fn get_reserve_data(st: &ProtocolState) -> (r: ReserveData)
        ensures
            r == st.reserve_data,
    {
        st.reserve_data.clone()
    }

    /// Stores the revenue metrics.
    pub fn save_revenue_metrics(st: &mut ProtocolState, metrics: &RevenueMetrics)
        ensures
            *final(st) == (ProtocolState { revenue_metrics: *metrics, ..*old(st) }),
    {
        st.revenue_metrics = *metrics;
    }

    /// The revenue metrics.
    pub fn get_revenue_metrics(st: &ProtocolState) -> (r: RevenueMetrics)
        ensures
            r == st.revenue_metrics,
    {
        st.revenue_metrics
    }
}

/// The repository of the activity counters.
pub struct ActivityStorage;

impl ActivityStorage {
    /// Stores the counters of `user`.
    pub fn save_user_activity(st: &mut ProtocolState, user: &Address, activity: &UserActivity)
        requires
            old(st).wf(),
        ensures
            final(st).wf(),
            final(st).user_activity@ == old(st).user_activity@.insert(user@, *activity),
            (ProtocolState { user_activity: old(st).user_activity, ..*final(st) }) == *old(st),
    {
        st.user_activity.insert(user.clone(), *activity);
    }

    /// The counters of `user`, if any were stored.
    pub fn get_user_activity(st: &ProtocolState, user: &Address) -> (r: Option<UserActivity>)
        requires
            st.wf(),
        ensures
            r == (if st.user_activity@.contains_key(user@) {
                Some(st.user_activity@[user@])
            } else {
                None
            }),
    {
        match st.user_activity.get(user) {
            Some(a) => Some(*a),
            None => None,
        }
    }

    /// Stores the protocol-wide figures.
    pub fn save_protocol_activity(st: &mut ProtocolState, activity: &ProtocolActivity)
        ensures
            *final(st) == (ProtocolState { protocol_activity: *activity, ..*old(st) }),
    {
        st.protocol_activity = *activity;
    }

    /// The protocol-wide figures.
    pub fn get_protocol_activity(st: &ProtocolState) -> (r: ProtocolActivity)
        ensures
            r == st.protocol_activity,
    {
        st.protocol_activity
    }
}

/// The repository of the asset registry, the asset descriptions and the
/// per-asset positions.
pub struct AssetStorage;

impl AssetStorage {
    /// Stores the registry of supported assets.
    pub fn save_registry(st: &mut ProtocolState, registry: &AssetRegistry)
        ensures
            final(st).asset_registry.supported_assets@ == registry.supported_assets@,
            final(st).asset_registry.default_asset == registry.default_asset,
            final(st).asset_registry.last_update == registry.last_update,
            (ProtocolState { asset_registry: old(st).asset_registry, ..*final(st) }) == *old(st),
    {
        st.asset_registry = registry.clone();
    }

    /// A copy of the registry of supported assets.
    pub fn get_registry(st: &ProtocolState) -> (r: AssetRegistry)
        ensures
            r.supported_assets@ == st.asset_registry.supported_assets@,
            r.default_asset == st.asset_registry.default_asset,
            r.last_update == st.asset_registry.last_update,
    {
        st.asset_registry.clone()
    }

    /// Stores the description of an asset under the symbol `asset`.
    pub fn save_asset_info(st: &mut ProtocolState, asset: &String, info: &AssetInfo)
        requires
            old(st).wf(),
        ensures
            final(st).wf(),
            final(st).assets@ == old(st).assets@.insert(asset@, *info),
            (ProtocolState { assets: old(st).assets, ..*final(st) }) == *old(st),
    {
        st.assets.insert(asset.clone(), info.clone());
    }

    /// The description stored under the symbol `asset`, if there is one.
    pub fn get_asset_info(st: &ProtocolState, asset: &String) -> (r: Option<AssetInfo>)
        requires
            st.wf(),
        ensures
            r == (if st.assets@.contains_key(asset@) {
                Some(st.assets@[asset@])
            } else {
                None
            }),
    {
        match st.assets.get(asset) {
            Some(a) => Some(a.clone()),
            None => None,
        }
    }

    /// Stores the position of `user` in `asset`.
    pub fn save_asset_position(
        st: &mut ProtocolState,
        user: &Address,
        asset: &str,
        position: &AssetPosition,
    )
        requires
            old(st).wf(),
        ensures
            final(st).wf(),
            final(st).asset_positions@ == old(st).asset_positions@.insert(
                (user@, asset@),
                *position,
            ),
            (ProtocolState { asset_positions: old(st).asset_positions, ..*final(st) }) == *old(st),
    {
        let key = AssetPositionKey { user: user.clone(), asset: asset.to_string() };
        st.asset_positions.insert(key, position.clone());
    }

    /// The position of `user` in `asset`, if there is one.
    pub fn get_asset_position(st: &ProtocolState, user: &Address, asset: &str) -> (r: Option<
        AssetPosition,
    >)
        requires
            st.wf(),
        ensures
            r == (if st.asset_positions@.contains_key((user@, asset@)) {
                Some(st.asset_positions@[(user@, asset@)])
            } else {
                None
            }),
    {
        let key = AssetPositionKey { user: user.clone(), asset: asset.to_string() };
        match st.asset_positions.get(&key) {
            Some(p) => Some(p.clone()),
            None => None,
        }
    }

    /// Forgets the position of `user` in `asset`.
    pub fn remove_asset_position(st: &mut ProtocolState, user: &Address, asset: &str)
        requires
            old(st).wf(),
        ensures
            final(st).wf(),
            final(st).asset_positions@ == old(st).asset_positions@.remove((user@, asset@)),
            (ProtocolState { asset_positions: old(st).asset_positions, ..*final(st) }) == *old(st),
    {
        let key = AssetPositionKey { user: user.clone(), asset: asset.to_string() };
        let _gone = st.asset_positions.remove(&key);
    }
}

/// The repository of the rate curve and of the rates and totals.
pub struct InterestRateStorage;

impl InterestRateStorage {
    /// Stores the rate curve.
    pub fn save_config(st: &mut ProtocolState, config: &InterestRateConfig)
        ensures
            *final(st) == (ProtocolState { interest_config: *config, ..*old(st) }),
    {
        st.interest_config = *config;
    }

    /// The rate curve.
    pub fn get_config(st: &ProtocolState) -> (r: InterestRateConfig)
        ensures
            r == st.interest_config,
    {
        st.interest_config
    }

    /// Stores the rates and totals.
    pub fn save_state(st: &mut ProtocolState, state: &InterestRateState)
        ensures
            *final(st) == (ProtocolState { interest_state: *state, ..*old(st) }),
    {
        st.interest_state = *state;
    }

    /// The rates and totals.
    pub fn get_state(st: &ProtocolState) -> (r: InterestRateState)
        ensures
            r == st.interest_state,
    {
        st.interest_state
    }

    /// The rates that follow from the stored totals at the ledger's clock
    /// sample.
    pub open spec fn refreshed(st: ProtocolState) -> InterestRateState {
        updated_rates(st.interest_state, st.interest_config, st.timestamp)
    }

    /// Recomputes the rates from the stored totals, stores and returns them.
    pub fn update_state(st: &mut ProtocolState) -> (r: InterestRateState)
        requires
            rates_fit(old(st).interest_state, old(st).interest_config),
        ensures
            r == Self::refreshed(*old(st)),
            *final(st) == (ProtocolState { interest_state: r, ..*old(st) }),
    {
        let mut state = Self::get_state(st);
        let config = Self::get_config(st);
        InterestRateManager::update_rates(st.timestamp, &mut state, &config);
        Self::save_state(st, &state);
        state
    }
}

/// The repository of the positions, and the ratios of a position.
pub struct StateHelper;

impl StateHelper {
    /// Files the position under its own account.
    pub fn save_position(st: &mut ProtocolState, position: &Position)
        requires
            old(st).wf(),
            position.collateral >= 0,
            position.debt >= 0,
        ensures
            final(st).wf(),
            final(st).positions@ == old(st).positions@.insert(position.user@, *position),
            (ProtocolState { positions: old(st).positions, ..*final(st) }) == *old(st),
    {
        st.positions.insert(position.user.clone(), position.clone());
    }

    /// The position of `user`, if there is one.
    pub fn get_position(st: &ProtocolState, user: &Address) -> (r: Option<Position>)
        requires
            st.wf(),
        ensures
            r == (if st.positions@.contains_key(user@) {
                Some(st.positions@[user@])
            } else {
                None
            }),
    {
        match st.positions.get(user) {
            Some(p) => Some(p.clone()),
            None => None,
        }
    }

    /// Forgets the position of `user`.
    pub fn remove_position(st: &mut ProtocolState, user: &Address)
        requires
            old(st).wf(),
        ensures
            final(st).wf(),
            final(st).positions@ == old(st).positions@.remove(user@),
            (ProtocolState { positions: old(st).positions, ..*final(st) }) == *old(st),
    {
        let _gone = st.positions.remove(user);
    }

    /// Collateral as a percentage of debt, without regard to price.
    pub fn collateral_ratio(position: &Position) -> (r: i128)
        requires
            plain_ratio_fits(position.collateral as int, position.debt as int),
        ensures
            r == plain_ratio(position.collateral as int, position.debt as int),
    {
        checked_plain_ratio(position.collateral, position.debt).unwrap()
    }

    /// The collateral at the price that `P` quotes, as a percentage of debt.
    /// A position without debt is not priced.
    pub fn dynamic_collateral_ratio<P: PriceOracle>(st: &mut ProtocolState, position: &Position)
        -> (r: i128)
        requires
            old(st).wf(),
            position.debt != 0 ==> ratio_fits(
                position.collateral as int,
                P::quote(*old(st)) as int,
                position.debt as int,
            ),
        ensures
            position.debt == 0 ==> r == i128::MAX && *final(st) == *old(st),
            position.debt != 0 ==> r == ratio(
                position.collateral as int,
                P::quote(*old(st)) as int,
                position.debt as int,
            ) && *final(st) == P::after_quote(*old(st)),
            final(st).wf(),
    {
        if position.debt == 0 {
            return i128::MAX;
        }
        let price = P::get_price(st);
        checked_ratio(position.collateral, price, position.debt).unwrap()
    }
}

/// The last price that was accepted, and when.
pub struct OracleData;

impl OracleData {
    /// Stores `price` as the last accepted price.
    pub fn set_price(st: &mut ProtocolState, price: i128)
        ensures
            *final(st) == (ProtocolState { oracle_price: price, ..*old(st) }),
    {
        st.oracle_price = price;
    }

    /// The last accepted price; zero where none was accepted yet.
    pub fn get_price(st: &ProtocolState) -> (r: i128)
        ensures
            r == st.oracle_price,
    {
        st.oracle_price
    }

    /// Stores the time of the last accepted price.
    pub fn set_last_update(st: &mut ProtocolState, timestamp: u64)
        ensures
            *final(st) == (ProtocolState { oracle_last_update: timestamp, ..*old(st) }),
    {
        st.oracle_last_update = timestamp;
    }

    /// The time of the last accepted price.
    pub fn get_last_update(st: &ProtocolState) -> (r: u64)
        ensures
            r == st.oracle_last_update,
    {
        st.oracle_last_update
    }
}

/// The single administrator, the price source and the minimum ratio.
pub struct ProtocolConfig;

impl ProtocolConfig {
    /// Why `caller` may not act as the administrator, if so.
    pub open spec fn admin_refusal(st: ProtocolState, caller: Seq<char>) -> Option<ProtocolError> {
        match st.admin {
            None => Some(ProtocolError::AdminNotSet),
            Some(a) => if a@ == caller {
                None
            } else {
                Some(ProtocolError::NotAdmin)
            },
        }
    }

    /// Names the administrator. This can be done once.
    pub fn set_admin(st: &mut ProtocolState, admin: &Address)
        requires
            old(st).admin is None,
        ensures
            *final(st) == (ProtocolState { admin: Some(*admin), ..*old(st) }),
    {
        st.admin = Some(admin.clone());
    }

    /// The administrator.
    pub fn get_admin(st: &ProtocolState) -> (r: Address)
        requires
            st.admin is Some,
        ensures
            r == st.admin->0,
    {
        match &st.admin {
            Some(a) => a.clone(),
            None => vstd::pervasive::unreached(),
        }
    }

    /// Succeeds exactly when `caller` is the administrator.
    pub fn require_admin(st: &ProtocolState, caller: &Address) -> (r: Result<(), ProtocolError>)
        ensures
            r == (match Self::admin_refusal(*st, caller@) {
                Some(e) => Err::<(), ProtocolError>(e),
                None => Ok(()),
            }),
    {
        match &st.admin {
            None => Err(ProtocolError::AdminNotSet),
            Some(a) => {
                if a.same(caller) {
                    Ok(())
                } else {
                    Err(ProtocolError::NotAdmin)
                }
            },
        }
    }

    /// Names the price source.
    pub fn set_oracle(st: &mut ProtocolState, caller: &Address, oracle: &Address) -> (r: Result<
        (),
        ProtocolError,
    >)
        ensures
            r == (match Self::admin_refusal(*old(st), caller@) {
                Some(e) => Err::<(), ProtocolError>(e),
                None => Ok(()),
            }),
            r is Ok ==> *final(st) == (ProtocolState { oracle: Some(*oracle), ..*old(st) }),
            r is Err ==> *final(st) == *old(st),
    {
        Self::require_admin(st, caller)?;
        st.oracle = Some(oracle.clone());
        Ok(())
    }

    /// The price source.
    pub fn get_oracle(st: &ProtocolState) -> (r: Address)
        requires
            st.oracle is Some,
        ensures
            r == st.oracle->0,
    {
        match &st.oracle {
            Some(a) => a.clone(),
            None => vstd::pervasive::unreached(),
        }
    }

    /// Sets the minimum ratio.
    pub fn set_min_collateral_ratio(st: &mut ProtocolState, caller: &Address, ratio: i128) -> (r:
        Result<(), ProtocolError>)
        ensures
            r == (match Self::admin_refusal(*old(st), caller@) {
                Some(e) => Err::<(), ProtocolError>(e),
                None => Ok(()),
            }),
            r is Ok ==> *final(st) == (ProtocolState { min_collateral_ratio: ratio, ..*old(st) }),
            r is Err ==> *final(st) == *old(st),
    {
        Self::require_admin(st, caller)?;
        st.min_collateral_ratio = ratio;
        Ok(())
    }

    /// The minimum ratio.
    pub fn get_min_collateral_ratio(st: &ProtocolState) -> (r: i128)
        ensures
            r == st.min_collateral_ratio,
    {
        st.min_collateral_ratio
    }
}

/// The limits a quoted price is held to.
pub struct OracleConfig;

impl OracleConfig {
    /// Sets how far, in percent, a quoted price may lie from the last one.
    pub fn set_max_price_deviation(st: &mut ProtocolState, caller: &Address, deviation: i128) -> (r:
        Result<(), ProtocolError>)
        ensures
            r == (match ProtocolConfig::admin_refusal(*old(st), caller@) {
                Some(e) => Err::<(), ProtocolError>(e),
                None => Ok(()),
            }),
            r is Ok ==> *final(st) == (ProtocolState {
                max_price_deviation: deviation,
                ..*old(st)
            }),
            r is Err ==> *final(st) == *old(st),
    {
        ProtocolConfig::require_admin(st, caller)?;
        st.max_price_deviation = deviation;
        Ok(())
    }

    /// How far, in percent, a quoted price may lie from the last one.
    pub fn get_max_price_deviation(st: &ProtocolState) -> (r: i128)
        ensures
            r == st.max_price_deviation,
    {
        st.max_price_deviation
    }

    /// Sets the age in seconds beyond which the last price counts as stale.
    pub fn set_heartbeat(st: &mut ProtocolState, caller: &Address, heartbeat: u64) -> (r: Result<
        (),
        ProtocolError,
    >)
        ensures
            r == (match ProtocolConfig::admin_refusal(*old(st), caller@) {
                Some(e) => Err::<(), ProtocolError>(e),
                None => Ok(()),
            }),
            r is Ok ==> *final(st) == (ProtocolState { heartbeat, ..*old(st) }),
            r is Err ==> *final(st) == *old(st),
    {
        ProtocolConfig::require_admin(st, caller)?;
        st.heartbeat = heartbeat;
        Ok(())
    }

    /// The age in seconds beyond which the last price counts as stale.
    pub fn get_heartbeat(st: &ProtocolState) -> (r: u64)
        ensures
            r == st.heartbeat,
    {
        st.heartbeat
    }

    /// Sets the price that is quoted where the feed's price is not accepted.
    pub fn set_fallback_price(st: &mut ProtocolState, caller: &Address, price: i128) -> (r: Result<
        (),
        ProtocolError,
    >)
        ensures
            r == (match ProtocolConfig::admin_refusal(*old(st), caller@) {
                Some(e) => Err::<(), ProtocolError>(e),
                None => Ok(()),
            }),
            r is Ok ==> *final(st) == (ProtocolState { fallback_price: price, ..*old(st) }),
            r is Err ==> *final(st) == *old(st),
    {
        ProtocolConfig::require_admin(st, caller)?;
        st.fallback_price = price;
        Ok(())
    }

    /// The price that is quoted where the feed's price is not accepted.
    pub fn get_fallback_price(st: &ProtocolState) -> (r: i128)
        ensures
            r == st.fallback_price,
    {
        st.fallback_price
    }

    /// The last accepted price is older than the heartbeat allows.
    pub open spec fn stale(st: ProtocolState) -> bool {
        st.timestamp - st.oracle_last_update > st.heartbeat
    }

    /// Whether the last accepted price is older than the heartbeat allows.
    pub fn is_price_stale(st: &ProtocolState) -> (r: bool)
        ensures
            r == Self::stale(*st),
    {
        if st.timestamp < st.oracle_last_update {
            false
        } else {
            st.timestamp - st.oracle_last_update > st.heartbeat
        }
    }
}

/// The repository of the verification status of accounts.
pub struct KYCStorage;

impl KYCStorage {
    /// Sets the verification status of `user`.
    pub fn set(st: &mut ProtocolState, user: &Address, status: KYCStatus)
        requires
            old(st).wf(),
        ensures
            final(st).wf(),
            final(st).kyc@ == old(st).kyc@.insert(user@, status),
            (ProtocolState { kyc: old(st).kyc, ..*final(st) }) == *old(st),
    {
        st.kyc.insert(user.clone(), status);
    }

    /// The verification status of `user`; pending where none was set.
    pub fn get(st: &ProtocolState, user: &Address) -> (r: KYCStatus)
        requires
            st.wf(),
        ensures
            r == st.kyc_status(user@),
    {
        match st.kyc.get(user) {
            Some(s) => *s,
            None => KYCStatus::Pending,
        }
    }
}

/// The repository of the frozen accounts.
pub struct FrozenAccounts;

impl FrozenAccounts {
    /// Freezes the account of `user`.
    pub fn freeze(st: &mut ProtocolState, user: &Address)
        requires
            old(st).wf(),
        ensures
            final(st).wf(),
            final(st).frozen@ == old(st).frozen@.insert(user@, true),
            (ProtocolState { frozen: old(st).frozen, ..*final(st) }) == *old(st),
    {
        st.frozen.insert(user.clone(), true);
    }

    /// Lifts the freeze on the account of `user`.
    pub fn unfreeze(st: &mut ProtocolState, user: &Address)
        requires
            old(st).wf(),
        ensures
            final(st).wf(),
            final(st).frozen@ == old(st).frozen@.insert(user@, false),
            (ProtocolState { frozen: old(st).frozen, ..*final(st) }) == *old(st),
    {
        st.frozen.insert(user.clone(), false);
    }

    /// Whether the account of `user` is frozen.
    pub fn is_frozen(st: &ProtocolState, user: &Address) -> (r: bool)
        requires
            st.wf(),
        ensures
            r == st.is_frozen(user@),
    {
        match st.frozen.get(user) {
            Some(f) => *f,
            None => false,
        }
    }
}

/// The repository of the blacklist.
pub struct BlacklistStorage;

impl BlacklistStorage {
    /// Puts `user` on the blacklist or takes them off it.
    pub fn set(st: &mut ProtocolState, user: &Address, value: bool)
        requires
            old(st).wf(),
        ensures
            final(st).wf(),
            final(st).blacklist@ == old(st).blacklist@.insert(user@, value),
            (ProtocolState { blacklist: old(st).blacklist, ..*final(st) }) == *old(st),
    {
        st.blacklist.insert(user.clone(), value);
    }

    /// Whether `user` is blacklisted.
    pub fn is_blacklisted(st: &ProtocolState, user: &Address) -> (r: bool)
        requires
            st.wf(),
        ensures
            r == st.is_blacklisted(user@),
    {
        match st.blacklist.get(user) {
            Some(f) => *f,
            None => false,
        }
    }
}

} // verus!
