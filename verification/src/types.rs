//! The records the protocol keeps: identities, positions, rate and risk
//! settings, reserve bookkeeping, activity counters and asset descriptions.

use crate::math::in_range;
use crate::table::Keyed;
use vstd::prelude::*;

verus! {

/// The account that reserve bookkeeping and the default asset name until an
/// administrator sets a treasury or a price source.
pub const PLACEHOLDER_ACCOUNT: &'static str =
    "GCXOTMMXRS24MYZI5FJPUCOEOFNWSR4XX7UXIK3NDGGE6A5QMJ5FF2FS";

/// The symbol of the asset every ledger starts with.
pub const DEFAULT_ASSET: &'static str = "XLM";

/// Owned text with the characters of `s`.
pub fn text(s: &'static str) -> (r: String)
    ensures
        r@ == s@,
{
    s.to_string()
}

/// An account identity. The protocol never looks inside one: it only
/// compares identities, and two are the same when their text is the same.
#[derive(Debug, PartialEq, Eq)]
pub struct Address {
    pub strkey: String,
}

impl View for Address {
    type V = Seq<char>;

    open spec fn view(&self) -> Seq<char> {
        self.strkey@
    }
}

impl Clone for Address {
    fn clone(&self) -> (r: Self)
        ensures
            r == *self,
    {
        Address { strkey: self.strkey.clone() }
    }
}

impl Keyed for Address {
    type Id = Seq<char>;

    open spec fn id(&self) -> Seq<char> {
        self.strkey@
    }

    fn same_key(&self, other: &Self) -> (r: bool) {
        self.strkey == other.strkey
    }
}

impl Address {
    /// The identity written as `s`.
    pub fn from_string(s: &String) -> (r: Address)
        ensures
            r.strkey == *s,
            r@ == s@,
    {
        Address { strkey: s.clone() }
    }

    /// The text of the identity.
    pub fn to_string(&self) -> (r: String)
        ensures
            r == self.strkey,
            r@ == self@,
    {
        self.strkey.clone()
    }

    /// Whether both are the same identity.
    pub fn same(&self, other: &Address) -> (r: bool)
        ensures
            r == (self@ == other@),
    {
        self.strkey == other.strkey
    }
}

/// An account's collateral and debt, with the interest accrued on each side
/// kept apart from the principal.
#[derive(Debug, PartialEq, Eq)]
pub struct Position {
    pub user: Address,
    pub collateral: i128,
    pub debt: i128,
    pub borrow_interest: i128,
    pub supply_interest: i128,
    pub last_accrual_time: u64,
}

impl Clone for Position {
    fn clone(&self) -> (r: Self)
        ensures
            r == *self,
    {
        Position {
            user: self.user.clone(),
            collateral: self.collateral,
            debt: self.debt,
            borrow_interest: self.borrow_interest,
            supply_interest: self.supply_interest,
            last_accrual_time: self.last_accrual_time,
        }
    }
}

impl Position {
    /// A position with the given principal amounts and no accrued interest.
    pub open spec fn opened(user: Address, collateral: i128, debt: i128) -> Position {
        Position {
            user,
            collateral,
            debt,
            borrow_interest: 0,
            supply_interest: 0,
            last_accrual_time: 0,
        }
    }

    /// A position with the given principal amounts and no accrued interest.
    pub fn new(user: Address, collateral: i128, debt: i128) -> (r: Self)
        ensures
            r == Position::opened(user, collateral, debt),
    {
        Position {
            user,
            collateral,
            debt,
            borrow_interest: 0,
            supply_interest: 0,
            last_accrual_time: 0,
        }
    }
}

/// The parameters of the rate curve, scaled by `SCALE`.
#[derive(Clone, Copy, Debug, PartialEq, Eq, Structural)]
pub struct InterestRateConfig {
    pub base_rate: i128,
    pub kink_utilization: i128,
    pub multiplier: i128,
    pub reserve_factor: i128,
    pub rate_ceiling: i128,
    pub rate_floor: i128,
    pub last_update: u64,
}

impl InterestRateConfig {
    /// 2% base rate, kink at 80%, multiplier 0.1, 10% reserve factor, rates
    /// kept between 0.1% and 50%.
    pub open spec fn standard() -> InterestRateConfig {
        InterestRateConfig {
            base_rate: 2_000_000,
            kink_utilization: 80_000_000,
            multiplier: 10_000_000,
            reserve_factor: 10_000_000,
            rate_ceiling: 50_000_000,
            rate_floor: 100_000,
            last_update: 0,
        }
    }

    /// The floor is not above the ceiling, the kink lies in (0, 1] and the
    /// reserve factor in [0, 1].
    pub open spec fn valid(&self) -> bool {
        &&& self.rate_floor <= self.rate_ceiling
        &&& 0 < self.kink_utilization <= 100_000_000
        &&& 0 <= self.reserve_factor <= 100_000_000
    }

    /// The standard rate curve.
    pub fn default() -> (r: Self)
        ensures
            r == InterestRateConfig::standard(),
            r.valid(),
    {
        InterestRateConfig {
            base_rate: 2_000_000,
            kink_utilization: 80_000_000,
            multiplier: 10_000_000,
            reserve_factor: 10_000_000,
            rate_ceiling: 50_000_000,
            rate_floor: 100_000,
            last_update: 0,
        }
    }
}

/// The rates in force and the totals they were computed from.
#[derive(Clone, Copy, Debug, PartialEq, Eq, Structural)]
pub struct InterestRateState {
    pub current_borrow_rate: i128,
    pub current_supply_rate: i128,
    pub utilization_rate: i128,
    pub total_borrowed: i128,
    pub total_supplied: i128,
    pub last_accrual_time: u64,
}

impl InterestRateState {
    /// No rates and no totals.
    pub open spec fn zero() -> InterestRateState {
        InterestRateState {
            current_borrow_rate: 0,
            current_supply_rate: 0,
            utilization_rate: 0,
            total_borrowed: 0,
            total_supplied: 0,
            last_accrual_time: 0,
        }
    }

    /// The state before anything was supplied or borrowed.
    pub fn initial() -> (r: Self)
        ensures
            r == InterestRateState::zero(),
    {
        InterestRateState {
            current_borrow_rate: 0,
            current_supply_rate: 0,
            utilization_rate: 0,
            total_borrowed: 0,
            total_supplied: 0,
            last_accrual_time: 0,
        }
    }
}

/// Liquidation limits and the four pause switches.
#[derive(Clone, Copy, Debug, PartialEq, Eq, Structural)]
pub struct RiskConfig {
    pub close_factor: i128,
    pub liquidation_incentive: i128,
    pub pause_borrow: bool,
    pub pause_deposit: bool,
    pub pause_withdraw: bool,
    pub pause_liquidate: bool,
    pub last_update: u64,
}

impl RiskConfig {
    /// Close factor 50%, liquidation incentive 10%, nothing paused.
    pub open spec fn standard() -> RiskConfig {
        RiskConfig {
            close_factor: 50_000_000,
            liquidation_incentive: 10_000_000,
            pause_borrow: false,
            pause_deposit: false,
            pause_withdraw: false,
            pause_liquidate: false,
            last_update: 0,
        }
    }

    /// The close factor lies in (0, 1] and the incentive in [0, 0.5].
    pub open spec fn valid(&self) -> bool {
        &&& 0 < self.close_factor <= 100_000_000
        &&& 0 <= self.liquidation_incentive <= 50_000_000
    }

    /// The standard risk settings.
    pub fn default() -> (r: Self)
        ensures
            r == RiskConfig::standard(),
            r.valid(),
    {
        RiskConfig {
            close_factor: 50_000_000,
            liquidation_incentive: 10_000_000,
            pause_borrow: false,
            pause_deposit: false,
            pause_withdraw: false,
            pause_liquidate: false,
            last_update: 0,
        }
    }
}

/// What the protocol has earned, paid out and still holds.
#[derive(Debug, PartialEq, Eq)]
pub struct ReserveData {
    pub total_fees_collected: i128,
    pub total_fees_distributed: i128,
    pub current_reserves: i128,
    pub treasury_address: Address,
    pub last_distribution_time: u64,
    pub distribution_frequency: u64,
}

impl Clone for ReserveData {
    fn clone(&self) -> (r: Self)
        ensures
            r == *self,
    {
        ReserveData {
            total_fees_collected: self.total_fees_collected,
            total_fees_distributed: self.total_fees_distributed,
            current_reserves: self.current_reserves,
            treasury_address: self.treasury_address.clone(),
            last_distribution_time: self.last_distribution_time,
            distribution_frequency: self.distribution_frequency,
        }
    }
}

impl ReserveData {
    /// The reserves are what was collected less what was distributed, and
    /// are not negative.
    pub open spec fn balanced(&self) -> bool {
        &&& self.current_reserves == self.total_fees_collected - self.total_fees_distributed
        &&& self.current_reserves >= 0
    }

    /// Nothing collected, nothing distributed, daily distribution.
    pub open spec fn is_initial(&self) -> bool {
        &&& self.total_fees_collected == 0
        &&& self.total_fees_distributed == 0
        &&& self.current_reserves == 0
        &&& self.treasury_address@ == PLACEHOLDER_ACCOUNT@
        &&& self.last_distribution_time == 0
        &&& self.distribution_frequency == 86_400
    }

    /// Reserves in which nothing was collected yet.
    pub fn default() -> (r: Self)
        ensures
            r.is_initial(),
            r.balanced(),
    {
        ReserveData {
            total_fees_collected: 0,
            total_fees_distributed: 0,
            current_reserves: 0,
            treasury_address: Address { strkey: text(PLACEHOLDER_ACCOUNT) },
            last_distribution_time: 0,
            distribution_frequency: 86_400,
        }
    }
}

/// Fees by period and by source.
#[derive(Clone, Copy, Debug, PartialEq, Eq, Structural)]
pub struct RevenueMetrics {
    pub daily_fees: i128,
    pub weekly_fees: i128,
    pub monthly_fees: i128,
    pub total_borrow_fees: i128,
    pub total_supply_fees: i128,
}

impl RevenueMetrics {
    /// No fees.
    pub open spec fn zero() -> RevenueMetrics {
        RevenueMetrics {
            daily_fees: 0,
            weekly_fees: 0,
            monthly_fees: 0,
            total_borrow_fees: 0,
            total_supply_fees: 0,
        }
    }

    /// Metrics on which nothing is counted yet.
    pub fn default() -> (r: Self)
        ensures
            r == RevenueMetrics::zero(),
    {
        RevenueMetrics {
            daily_fees: 0,
            weekly_fees: 0,
            monthly_fees: 0,
            total_borrow_fees: 0,
            total_supply_fees: 0,
        }
    }
}

/// Running totals of what one account has done.
#[derive(Clone, Copy, Debug, PartialEq, Eq, Structural)]
pub struct UserActivity {
    pub total_deposits: i128,
    pub total_withdrawals: i128,
    pub total_borrows: i128,
    pub total_repayments: i128,
    pub last_activity: u64,
    pub activity_count: u32,
}

impl UserActivity {
    /// Nothing counted.
    pub open spec fn zero() -> UserActivity {
        UserActivity {
            total_deposits: 0,
            total_withdrawals: 0,
            total_borrows: 0,
            total_repayments: 0,
            last_activity: 0,
            activity_count: 0,
        }
    }

    /// One more event can be counted and `total + amount` is representable.
    pub open spec fn can_record(&self, total: i128, amount: i128) -> bool {
        in_range(total + amount) && self.activity_count < u32::MAX
    }

    /// Counters on which nothing is counted yet.
    pub fn new() -> (r: Self)
        ensures
            r == UserActivity::zero(),
    {
        UserActivity {
            total_deposits: 0,
            total_withdrawals: 0,
            total_borrows: 0,
            total_repayments: 0,
            last_activity: 0,
            activity_count: 0,
        }
    }

    /// Counts a deposit of `amount` at `timestamp`.
    pub fn record_deposit(&mut self, amount: i128, timestamp: u64)
        requires
            old(self).can_record(old(self).total_deposits, amount),
        ensures
            *final(self) == (UserActivity {
                total_deposits: (old(self).total_deposits + amount) as i128,
                last_activity: timestamp,
                activity_count: (old(self).activity_count + 1) as u32,
                ..*old(self)
            }),
    {
        self.total_deposits = self.total_deposits + amount;
        self.last_activity = timestamp;
        self.activity_count = self.activity_count + 1;
    }

    /// Counts a withdrawal of `amount` at `timestamp`.
    pub fn record_withdrawal(&mut self, amount: i128, timestamp: u64)
        requires
            old(self).can_record(old(self).total_withdrawals, amount),
        ensures
            *final(self) == (UserActivity {
                total_withdrawals: (old(self).total_withdrawals + amount) as i128,
                last_activity: timestamp,
                activity_count: (old(self).activity_count + 1) as u32,
                ..*old(self)
            }),
    {
        self.total_withdrawals = self.total_withdrawals + amount;
        self.last_activity = timestamp;
        self.activity_count = self.activity_count + 1;
    }

    /// Counts a borrow of `amount` at `timestamp`.
    pub fn record_borrow(&mut self, amount: i128, timestamp: u64)
        requires
            old(self).can_record(old(self).total_borrows, amount),
        ensures
            *final(self) == (UserActivity {
                total_borrows: (old(self).total_borrows + amount) as i128,
                last_activity: timestamp,
                activity_count: (old(self).activity_count + 1) as u32,
                ..*old(self)
            }),
    {
        self.total_borrows = self.total_borrows + amount;
        self.last_activity = timestamp;
        self.activity_count = self.activity_count + 1;
    }

    /// Counts a repayment of `amount` at `timestamp`.
    pub fn record_repayment(&mut self, amount: i128, timestamp: u64)
        requires
            old(self).can_record(old(self).total_repayments, amount),
        ensures
            *final(self) == (UserActivity {
                total_repayments: (old(self).total_repayments + amount) as i128,
                last_activity: timestamp,
                activity_count: (old(self).activity_count + 1) as u32,
                ..*old(self)
            }),
    {
        self.total_repayments = self.total_repayments + amount;
        self.last_activity = timestamp;
        self.activity_count = self.activity_count + 1;
    }
}

/// Protocol-wide usage figures, as an administrator reports them.
#[derive(Clone, Copy, Debug, PartialEq, Eq, Structural)]
pub struct ProtocolActivity {
    pub total_users: u32,
    pub active_users_24h: u32,
    pub active_users_7d: u32,
    pub total_transactions: u32,
    pub last_update: u64,
}

impl ProtocolActivity {
    /// Nothing reported.
    pub open spec fn zero() -> ProtocolActivity {
        ProtocolActivity {
            total_users: 0,
            active_users_24h: 0,
            active_users_7d: 0,
            total_transactions: 0,
            last_update: 0,
        }
    }

    /// Figures of which none was reported yet.
    pub fn new() -> (r: Self)
        ensures
            r == ProtocolActivity::zero(),
    {
        ProtocolActivity {
            total_users: 0,
            active_users_24h: 0,
            active_users_7d: 0,
            total_transactions: 0,
            last_update: 0,
        }
    }

    /// Replaces all figures.
    pub fn update_stats(
        &mut self,
        total_users: u32,
        active_users_24h: u32,
        active_users_7d: u32,
        total_transactions: u32,
        timestamp: u64,
    )
        ensures
            *final(self) == (ProtocolActivity {
                total_users,
                active_users_24h,
                active_users_7d,
                total_transactions,
                last_update: timestamp,
            }),
    {
        self.total_users = total_users;
        self.active_users_24h = active_users_24h;
        self.active_users_7d = active_users_7d;
        self.total_transactions = total_transactions;
        self.last_update = timestamp;
    }
}

/// One supported asset with its own risk and rate settings.
#[derive(Debug, PartialEq, Eq)]
pub struct AssetInfo {
    pub symbol: String,
    pub decimals: u32,
    pub oracle_address: Address,
    pub min_collateral_ratio: i128,
    pub risk_config: RiskConfig,
    pub interest_config: InterestRateConfig,
    pub interest_state: InterestRateState,
    pub deposit_enabled: bool,
    pub borrow_enabled: bool,
    pub last_update: u64,
}

impl Clone for AssetInfo {
    fn clone(&self) -> (r: Self)
        ensures
            r == *self,
    {
        AssetInfo {
            symbol: self.symbol.clone(),
            decimals: self.decimals,
            oracle_address: self.oracle_address.clone(),
            min_collateral_ratio: self.min_collateral_ratio,
            risk_config: self.risk_config,
            interest_config: self.interest_config,
            interest_state: self.interest_state,
            deposit_enabled: self.deposit_enabled,
            borrow_enabled: self.borrow_enabled,
            last_update: self.last_update,
        }
    }
}

impl AssetInfo {
    /// A newly listed asset: standard settings, deposits and borrowing open.
    pub open spec fn listed(
        symbol: String,
        decimals: u32,
        oracle_address: Address,
        min_collateral_ratio: i128,
    ) -> AssetInfo {
        AssetInfo {
            symbol,
            decimals,
            oracle_address,
            min_collateral_ratio,
            risk_config: RiskConfig::standard(),
            interest_config: InterestRateConfig::standard(),
            interest_state: InterestRateState::zero(),
            deposit_enabled: true,
            borrow_enabled: true,
            last_update: 0,
        }
    }

    /// A newly listed asset with standard settings.
    pub fn new(
        symbol: String,
        decimals: u32,
        oracle_address: Address,
        min_collateral_ratio: i128,
    ) -> (r: Self)
        ensures
            r == AssetInfo::listed(symbol, decimals, oracle_address, min_collateral_ratio),
    {
        AssetInfo {
            symbol,
            decimals,
            oracle_address,
            min_collateral_ratio,
            risk_config: RiskConfig::default(),
            interest_config: InterestRateConfig::default(),
            interest_state: InterestRateState::initial(),
            deposit_enabled: true,
            borrow_enabled: true,
            last_update: 0,
        }
    }
}

/// An account's position in one asset.
#[derive(Debug, PartialEq, Eq)]
pub struct AssetPosition {
    pub user: Address,
    pub asset: String,
    pub collateral: i128,
    pub debt: i128,
    pub borrow_interest: i128,
    pub supply_interest: i128,
    pub last_accrual_time: u64,
}

impl Clone for AssetPosition {
    fn clone(&self) -> (r: Self)
        ensures
            r == *self,
    {
        AssetPosition {
            user: self.user.clone(),
            asset: self.asset.clone(),
            collateral: self.collateral,
            debt: self.debt,
            borrow_interest: self.borrow_interest,
            supply_interest: self.supply_interest,
            last_accrual_time: self.last_accrual_time,
        }
    }
}

impl AssetPosition {
    /// A position in one asset with the given principal amounts and no accrued
    /// interest.
    pub open spec fn opened(user: Address, asset: String, collateral: i128, debt: i128)
        -> AssetPosition {
        AssetPosition {
            user,
            asset,
            collateral,
            debt,
            borrow_interest: 0,
            supply_interest: 0,
            last_accrual_time: 0,
        }
    }

    /// A position in one asset with the given principal amounts and no accrued
    /// interest.
    pub fn new(user: Address, asset: String, collateral: i128, debt: i128) -> (r: Self)
        ensures
            r == AssetPosition::opened(user, asset, collateral, debt),
    {
        AssetPosition {
            user,
            asset,
            collateral,
            debt,
            borrow_interest: 0,
            supply_interest: 0,
            last_accrual_time: 0,
        }
    }
}

/// The key of a per-asset position: one account in one asset.
#[derive(Debug, PartialEq, Eq)]
pub struct AssetPositionKey {
    pub user: Address,
    pub asset: String,
}

impl Keyed for AssetPositionKey {
    type Id = (Seq<char>, Seq<char>);

    open spec fn id(&self) -> (Seq<char>, Seq<char>) {
        (self.user@, self.asset@)
    }

    fn same_key(&self, other: &Self) -> (r: bool) {
        self.user.same(&other.user) && self.asset == other.asset
    }
}

/// The supported symbols in listing order, and the default among them.
#[derive(Debug, PartialEq, Eq)]
pub struct AssetRegistry {
    pub supported_assets: Vec<String>,
    pub default_asset: String,
    pub last_update: u64,
}

impl Clone for AssetRegistry {
    fn clone(&self) -> (r: Self)
        ensures
            r.supported_assets@ == self.supported_assets@,
            r.default_asset == self.default_asset,
            r.last_update == self.last_update,
    {
        let assets = self.supported_assets.clone();
        assert(assets@ =~= self.supported_assets@);
        AssetRegistry {
            supported_assets: assets,
            default_asset: self.default_asset.clone(),
            last_update: self.last_update,
        }
    }
}

impl AssetRegistry {
    /// A registry that lists only `default_asset`.
    pub fn new(default_asset: String) -> (r: Self)
        ensures
            r.supported_assets@ == seq![default_asset],
            r.default_asset == default_asset,
            r.last_update == 0,
    {
        let mut assets: Vec<String> = Vec::new();
        assets.push(default_asset.clone());
        assert(assets@ =~= seq![default_asset]);
        AssetRegistry { supported_assets: assets, default_asset, last_update: 0 }
    }
}

/// How far an account has got with identity verification.
#[derive(Clone, Copy, Debug, PartialEq, Eq, Structural)]
pub enum KYCStatus {
    Pending,
    Verified,
    Rejected,
}

/// Where a proposal stands. Only `Pending` can still change.
#[derive(Clone, Copy, Debug, PartialEq, Eq, Structural)]
pub enum ProposalStatus {
    Pending,
    Approved,
    Rejected,
    Cancelled,
}

/// A request to list a new asset.
#[derive(Debug, PartialEq, Eq)]
pub struct AssetProposal {
    pub id: u32,
    pub proposer: Address,
    pub symbol: String,
    pub name: String,
    pub oracle_address: Address,
    pub collateral_factor: u32,
    pub borrow_factor: u32,
    pub status: ProposalStatus,
    pub created_at: u64,
}

impl Clone for AssetProposal {
    fn clone(&self) -> (r: Self)
        ensures
            r == *self,
    {
        AssetProposal {
            id: self.id,
            proposer: self.proposer.clone(),
            symbol: self.symbol.clone(),
            name: self.name.clone(),
            oracle_address: self.oracle_address.clone(),
            collateral_factor: self.collateral_factor,
            borrow_factor: self.borrow_factor,
            status: self.status,
            created_at: self.created_at,
        }
    }
}

} // verus!
