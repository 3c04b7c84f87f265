//! Setting the protocol up, the administrator's switches and dials, and the
//! queries on rates, prices and positions.
//!
//! Every setter is open to the administrator alone. A change to the rate
//! curve recomputes the rates at once, and is refused where they cannot be
//! computed.

use crate::config::texts;
use crate::errors::ProtocolError;
use crate::interest::{rates_fit, updated_rates, InterestRateManager};
use crate::lending::{accrual_ready, accrued_position, Contract};
use crate::oracle::{PriceOracle, RealPriceOracle};
use crate::risk::{checked_ratio, ratio, ratio_fits};
use crate::state::{
    changed_only_at, InterestRateStorage, OracleConfig, ProtocolConfig, ProtocolState,
    StateHelper,
};
use crate::types::{
    text, Address, AssetInfo, AssetRegistry, InterestRateConfig, InterestRateState, Position,
    ReserveData, RevenueMetrics, RiskConfig, DEFAULT_ASSET, PLACEHOLDER_ACCOUNT,
};
use vstd::prelude::*;

verus! {

/// The answer to a request that only the administrator may make and that
/// cannot fail otherwise.
pub open spec fn admin_gate(st: ProtocolState, caller: Seq<char>) -> Result<(), ProtocolError> {
    match ProtocolConfig::admin_refusal(st, caller) {
        Some(e) => Err(e),
        None => Ok(()),
    }
}

/// Why a new rate curve is refused, if it is.
pub open spec fn curve_refusal(st: ProtocolState, caller: Seq<char>, config: InterestRateConfig)
    -> Option<ProtocolError> {
    if ProtocolConfig::admin_refusal(st, caller) is Some {
        ProtocolConfig::admin_refusal(st, caller)
    } else if !rates_fit(st.interest_state, config) {
        Some(ProtocolError::Unknown)
    } else {
        None
    }
}

/// The ledger after the rate curve `config` was put in force.
pub open spec fn with_curve(st: ProtocolState, config: InterestRateConfig) -> ProtocolState {
    ProtocolState {
        interest_config: config,
        interest_state: updated_rates(st.interest_state, config, st.timestamp),
        ..st
    }
}

/// The description of the asset every ledger is set up with.
pub open spec fn is_default_listing(info: AssetInfo) -> bool {
    &&& info.symbol@ == DEFAULT_ASSET@
    &&& info.decimals == 7
    &&& info.oracle_address@ == PLACEHOLDER_ACCOUNT@
    &&& info.min_collateral_ratio == 150
    &&& info.risk_config == RiskConfig::standard()
    &&& info.interest_config == InterestRateConfig::standard()
    &&& info.interest_state == InterestRateState::zero()
    &&& info.deposit_enabled
    &&& info.borrow_enabled
    &&& info.last_update == 0
}

impl Contract {
    /// What setting up has changed: the administrator is named and is the
    /// treasury, rates, risk settings, reserves and metrics are at their
    /// starting values, and the default asset is the one listed asset.
    pub open spec fn initialized(pre: ProtocolState, post: ProtocolState, admin: String) -> bool {
        &&& post.admin == Some(Address { strkey: admin })
        &&& post.interest_config == InterestRateConfig::standard()
        &&& post.interest_state == InterestRateState::zero()
        &&& post.risk_config == RiskConfig::standard()
        &&& post.reserve_data == ReserveData {
            total_fees_collected: 0,
            total_fees_distributed: 0,
            current_reserves: 0,
            treasury_address: Address { strkey: admin },
            last_distribution_time: 0,
            distribution_frequency: 86_400,
        }
        &&& post.revenue_metrics == RevenueMetrics::zero()
        &&& texts(post.asset_registry.supported_assets@) == seq![DEFAULT_ASSET@]
        &&& post.asset_registry.default_asset@ == DEFAULT_ASSET@
        &&& post.asset_registry.last_update == 0
        &&& changed_only_at(post.assets@, pre.assets@, DEFAULT_ASSET@)
        &&& is_default_listing(post.assets@[DEFAULT_ASSET@])
        &&& (ProtocolState {
            admin: pre.admin,
            interest_config: pre.interest_config,
            interest_state: pre.interest_state,
            risk_config: pre.risk_config,
            reserve_data: pre.reserve_data,
            revenue_metrics: pre.revenue_metrics,
            asset_registry: pre.asset_registry,
            assets: pre.assets,
            ..post
        }) == pre
    }

    /// Sets the protocol up with `admin` as its administrator. This can be
    /// done once.
    pub fn initialize(st: &mut ProtocolState, admin: String) -> (r: Result<(), ProtocolError>)
        requires
            old(st).wf(),
        ensures
            final(st).wf(),
            r == (if old(st).admin is Some {
                Err::<(), ProtocolError>(ProtocolError::AlreadyInitialized)
            } else {
                Ok(())
            }),
            r is Err ==> *final(st) == *old(st),
            r is Ok ==> Self::initialized(*old(st), *final(st), admin),
    {
        if st.admin.is_some() {
            return Err(ProtocolError::AlreadyInitialized);
        }
        let admin_addr = Address::from_string(&admin);
        st.interest_config = InterestRateConfig::default();
        st.interest_state = InterestRateState::initial();
        st.risk_config = RiskConfig::default();
        let mut reserve = ReserveData::default();
        reserve.treasury_address = admin_addr.clone();
        st.reserve_data = reserve;
        st.revenue_metrics = RevenueMetrics::default();
        st.asset_registry = AssetRegistry::new(text(DEFAULT_ASSET));
        let listing = AssetInfo::new(
            text(DEFAULT_ASSET),
            7,
            Address { strkey: text(PLACEHOLDER_ACCOUNT) },
            150,
        );
        st.assets.insert(text(DEFAULT_ASSET), listing);
        st.admin = Some(admin_addr);
        proof {
            assert(texts(st.asset_registry.supported_assets@) =~= seq![DEFAULT_ASSET@]);
            assert(st.assets@.remove(DEFAULT_ASSET@) =~= old(st).assets@.remove(DEFAULT_ASSET@));
        }
        Ok(())
    }

    /// Names the price source.
    pub fn set_oracle(st: &mut ProtocolState, caller: String, oracle: String) -> (r: Result<
        (),
        ProtocolError,
    >)
        ensures
            r == admin_gate(*old(st), caller@),
            r is Ok ==> *final(st) == (ProtocolState {
                oracle: Some(Address { strkey: oracle }),
                ..*old(st)
            }),
            r is Err ==> *final(st) == *old(st),
    {
        let caller_addr = Address::from_string(&caller);
        let oracle_addr = Address::from_string(&oracle);
        ProtocolConfig::set_oracle(st, &caller_addr, &oracle_addr)
    }

    /// Sets the ratio below which a position may not borrow or withdraw and may
    /// be liquidated.
    pub fn set_min_collateral_ratio(st: &mut ProtocolState, caller: String, ratio: i128) -> (r:
        Result<(), ProtocolError>)
        ensures
            r == admin_gate(*old(st), caller@),
            r is Ok ==> *final(st) == (ProtocolState { min_collateral_ratio: ratio, ..*old(st) }),
            r is Err ==> *final(st) == *old(st),
    {
        let caller_addr = Address::from_string(&caller);
        ProtocolConfig::set_min_collateral_ratio(st, &caller_addr, ratio)
    }

    /// Sets how far, in percent, a quoted price may lie from the last one.
    pub fn set_max_price_deviation(st: &mut ProtocolState, caller: String, deviation: i128) -> (r:
        Result<(), ProtocolError>)
        ensures
            r == admin_gate(*old(st), caller@),
            r is Ok ==> *final(st) == (ProtocolState {
                max_price_deviation: deviation,
                ..*old(st)
            }),
            r is Err ==> *final(st) == *old(st),
    {
        let caller_addr = Address::from_string(&caller);
        OracleConfig::set_max_price_deviation(st, &caller_addr, deviation)
    }

    /// Sets the age in seconds beyond which the last price counts as stale.
    pub fn set_oracle_heartbeat(st: &mut ProtocolState, caller: String, heartbeat: u64) -> (r:
        Result<(), ProtocolError>)
        ensures
            r == admin_gate(*old(st), caller@),
            r is Ok ==> *final(st) == (ProtocolState { heartbeat, ..*old(st) }),
            r is Err ==> *final(st) == *old(st),
    {
        let caller_addr = Address::from_string(&caller);
        OracleConfig::set_heartbeat(st, &caller_addr, heartbeat)
    }

    /// Sets the price that is quoted where the feed's price is not accepted.
    pub fn set_fallback_price(st: &mut ProtocolState, caller: String, price: i128) -> (r: Result<
        (),
        ProtocolError,
    >)
        ensures
            r == admin_gate(*old(st), caller@),
            r is Ok ==> *final(st) == (ProtocolState { fallback_price: price, ..*old(st) }),
            r is Err ==> *final(st) == *old(st),
    {
        let caller_addr = Address::from_string(&caller);
        OracleConfig::set_fallback_price(st, &caller_addr, price)
    }

    /// The last accepted price and its time, the deviation and heartbeat
    /// limits, and whether the price is stale.
    pub fn get_oracle_info(st: &ProtocolState) -> (r: Result<
        (i128, u64, i128, u64, bool),
        ProtocolError,
    >)
        ensures
            r == Ok::<(i128, u64, i128, u64, bool), ProtocolError>(
                (
                    st.oracle_price,
                    st.oracle_last_update,
                    st.max_price_deviation,
                    st.heartbeat,
                    OracleConfig::stale(*st),
                ),
            ),
    {
        Ok(
            (
                st.oracle_price,
                st.oracle_last_update,
                st.max_price_deviation,
                st.heartbeat,
                OracleConfig::is_price_stale(st),
            ),
        )
    }

    /// Stores `price` as the last accepted price, whatever it is.
    pub fn force_update_price(st: &mut ProtocolState, caller: String, price: i128) -> (r: Result<
        (),
        ProtocolError,
    >)
        ensures
            r == admin_gate(*old(st), caller@),
            r is Ok ==> *final(st) == (ProtocolState {
                oracle_price: price,
                oracle_last_update: old(st).timestamp,
                ..*old(st)
            }),
            r is Err ==> *final(st) == *old(st),
    {
        let caller_addr = Address::from_string(&caller);
        ProtocolConfig::require_admin(st, &caller_addr)?;
        st.oracle_price = price;
        st.oracle_last_update = st.timestamp;
        Ok(())
    }

    /// Puts a new rate curve in force and recomputes the rates.
    pub fn change_curve(st: &mut ProtocolState, caller: &String, config: InterestRateConfig) -> (r:
        Result<(), ProtocolError>)
        ensures
            r == (match curve_refusal(*old(st), caller@, config) {
                Some(e) => Err::<(), ProtocolError>(e),
                None => Ok(()),
            }),
            r is Ok ==> *final(st) == with_curve(*old(st), config),
            r is Err ==> *final(st) == *old(st),
    {
        let caller_addr = Address::from_string(caller);
        ProtocolConfig::require_admin(st, &caller_addr)?;
        let rates = match InterestRateManager::checked_update_rates(
            st.timestamp,
            &st.interest_state,
            &config,
        ) {
            Some(v) => v,
            None => { return Err(ProtocolError::Unknown); },
        };
        st.interest_config = config;
        st.interest_state = rates;
        Ok(())
    }

    /// Sets the base rate of the curve.
    pub fn set_base_rate(st: &mut ProtocolState, caller: String, rate: i128) -> (r: Result<
        (),
        ProtocolError,
    >)
        ensures
            r == (match curve_refusal(
                *old(st),
                caller@,
                InterestRateConfig {
                    base_rate: rate,
                    last_update: old(st).timestamp,
                    ..old(st).interest_config
                },
            ) {
                Some(e) => Err::<(), ProtocolError>(e),
                None => Ok(()),
            }),
            r is Ok ==> *final(st) == with_curve(
                *old(st),
                InterestRateConfig {
                    base_rate: rate,
                    last_update: old(st).timestamp,
                    ..old(st).interest_config
                },
            ),
            r is Err ==> *final(st) == *old(st),
    {
        let mut config = st.interest_config;
        config.base_rate = rate;
        config.last_update = st.timestamp;
        Self::change_curve(st, &caller, config)
    }

    /// Sets the utilization above which the borrow rate rises.
    pub fn set_kink_utilization(st: &mut ProtocolState, caller: String, utilization: i128) -> (r:
        Result<(), ProtocolError>)
        ensures
            r == (match curve_refusal(
                *old(st),
                caller@,
                InterestRateConfig {
                    kink_utilization: utilization,
                    last_update: old(st).timestamp,
                    ..old(st).interest_config
                },
            ) {
                Some(e) => Err::<(), ProtocolError>(e),
                None => Ok(()),
            }),
            r is Ok ==> *final(st) == with_curve(
                *old(st),
                InterestRateConfig {
                    kink_utilization: utilization,
                    last_update: old(st).timestamp,
                    ..old(st).interest_config
                },
            ),
            r is Err ==> *final(st) == *old(st),
    {
        let mut config = st.interest_config;
        config.kink_utilization = utilization;
        config.last_update = st.timestamp;
        Self::change_curve(st, &caller, config)
    }

    /// Sets the multiplier that applies above the kink.
    pub fn set_multiplier(st: &mut ProtocolState, caller: String, multiplier: i128) -> (r: Result<
        (),
        ProtocolError,
    >)
        ensures
            r == (match curve_refusal(
                *old(st),
                caller@,
                InterestRateConfig {
                    multiplier,
                    last_update: old(st).timestamp,
                    ..old(st).interest_config
                },
            ) {
                Some(e) => Err::<(), ProtocolError>(e),
                None => Ok(()),
            }),
            r is Ok ==> *final(st) == with_curve(
                *old(st),
                InterestRateConfig {
                    multiplier,
                    last_update: old(st).timestamp,
                    ..old(st).interest_config
                },
            ),
            r is Err ==> *final(st) == *old(st),
    {
        let mut config = st.interest_config;
        config.multiplier = multiplier;
        config.last_update = st.timestamp;
        Self::change_curve(st, &caller, config)
    }

    /// Sets the protocol's share of interest.
    pub fn set_reserve_factor(st: &mut ProtocolState, caller: String, factor: i128) -> (r: Result<
        (),
        ProtocolError,
    >)
        ensures
            r == (match curve_refusal(
                *old(st),
                caller@,
                InterestRateConfig {
                    reserve_factor: factor,
                    last_update: old(st).timestamp,
                    ..old(st).interest_config
                },
            ) {
                Some(e) => Err::<(), ProtocolError>(e),
                None => Ok(()),
            }),
            r is Ok ==> *final(st) == with_curve(
                *old(st),
                InterestRateConfig {
                    reserve_factor: factor,
                    last_update: old(st).timestamp,
                    ..old(st).interest_config
                },
            ),
            r is Err ==> *final(st) == *old(st),
    {
        let mut config = st.interest_config;
        config.reserve_factor = factor;
        config.last_update = st.timestamp;
        Self::change_curve(st, &caller, config)
    }

    /// Sets the floor and the ceiling of the borrow rate.
    pub fn set_rate_limits(st: &mut ProtocolState, caller: String, floor: i128, ceiling: i128) -> (r:
        Result<(), ProtocolError>)
        ensures
            r == (match curve_refusal(
                *old(st),
                caller@,
                InterestRateConfig {
                    rate_floor: floor,
                    rate_ceiling: ceiling,
                    last_update: old(st).timestamp,
                    ..old(st).interest_config
                },
            ) {
                Some(e) => Err::<(), ProtocolError>(e),
                None => Ok(()),
            }),
            r is Ok ==> *final(st) == with_curve(
                *old(st),
                InterestRateConfig {
                    rate_floor: floor,
                    rate_ceiling: ceiling,
                    last_update: old(st).timestamp,
                    ..old(st).interest_config
                },
            ),
            r is Err ==> *final(st) == *old(st),
    {
        let mut config = st.interest_config;
        config.rate_floor = floor;
        config.rate_ceiling = ceiling;
        config.last_update = st.timestamp;
        Self::change_curve(st, &caller, config)
    }

    /// Overrides the borrow rate in force until the rates are next
    /// recomputed.
    pub fn emergency_rate_adjustment(st: &mut ProtocolState, caller: String, new_rate: i128) -> (r:
        Result<(), ProtocolError>)
        ensures
            r == admin_gate(*old(st), caller@),
            r is Ok ==> *final(st) == (ProtocolState {
                interest_state: InterestRateState {
                    current_borrow_rate: new_rate,
                    last_accrual_time: old(st).timestamp,
                    ..old(st).interest_state
                },
                ..*old(st)
            }),
            r is Err ==> *final(st) == *old(st),
    {
        let caller_addr = Address::from_string(&caller);
        ProtocolConfig::require_admin(st, &caller_addr)?;
        st.interest_state.current_borrow_rate = new_rate;
        st.interest_state.last_accrual_time = st.timestamp;
        Ok(())
    }

    /// Recomputes the rates from the stored totals and stores them. Anyone
    /// may ask for this.
    pub fn accrue_interest(st: &mut ProtocolState) -> (r: Result<(), ProtocolError>)
        ensures
            r == (if rates_fit(old(st).interest_state, old(st).interest_config) {
                Ok::<(), ProtocolError>(())
            } else {
                Err::<(), ProtocolError>(ProtocolError::Unknown)
            }),
            r is Ok ==> *final(st) == (ProtocolState {
                interest_state: InterestRateStorage::refreshed(*old(st)),
                ..*old(st)
            }),
            r is Err ==> *final(st) == *old(st),
    {
        let rates = match InterestRateManager::checked_update_rates(
            st.timestamp,
            &st.interest_state,
            &st.interest_config,
        ) {
            Some(v) => v,
            None => { return Err(ProtocolError::Unknown); },
        };
        st.interest_state = rates;
        Ok(())
    }

    /// The borrow rate and the supply rate, recomputed and stored.
    pub fn get_current_rates(st: &mut ProtocolState) -> (r: Result<(i128, i128), ProtocolError>)
        ensures
            r == (if rates_fit(old(st).interest_state, old(st).interest_config) {
                Ok::<(i128, i128), ProtocolError>(
                    (
                        InterestRateStorage::refreshed(*old(st)).current_borrow_rate,
                        InterestRateStorage::refreshed(*old(st)).current_supply_rate,
                    ),
                )
            } else {
                Err::<(i128, i128), ProtocolError>(ProtocolError::Unknown)
            }),
            r is Ok ==> *final(st) == (ProtocolState {
                interest_state: InterestRateStorage::refreshed(*old(st)),
                ..*old(st)
            }),
            r is Err ==> *final(st) == *old(st),
    {
        Self::accrue_interest(st)?;
        Ok((st.interest_state.current_borrow_rate, st.interest_state.current_supply_rate))
    }

    /// Utilization, total borrowed and total supplied, with the rates
    /// recomputed and stored.
    pub fn get_utilization_metrics(st: &mut ProtocolState) -> (r: Result<
        (i128, i128, i128),
        ProtocolError,
    >)
        ensures
            r == (if rates_fit(old(st).interest_state, old(st).interest_config) {
                Ok::<(i128, i128, i128), ProtocolError>(
                    (
                        InterestRateStorage::refreshed(*old(st)).utilization_rate,
                        old(st).interest_state.total_borrowed,
                        old(st).interest_state.total_supplied,
                    ),
                )
            } else {
                Err::<(i128, i128, i128), ProtocolError>(ProtocolError::Unknown)
            }),
            r is Ok ==> *final(st) == (ProtocolState {
                interest_state: InterestRateStorage::refreshed(*old(st)),
                ..*old(st)
            }),
            r is Err ==> *final(st) == *old(st),
    {
        Self::accrue_interest(st)?;
        Ok(
            (
                st.interest_state.utilization_rate,
                st.interest_state.total_borrowed,
                st.interest_state.total_supplied,
            ),
        )
    }

    /// The borrow interest and the supply interest of `user` as they stand
    /// now. The rates are recomputed and stored; the position is not
    /// touched.
    pub fn get_user_accrued_interest(st: &mut ProtocolState, user: String) -> (r: Result<
        (i128, i128),
        ProtocolError,
    >)
        requires
            old(st).wf(),
        ensures
            final(st).wf(),
            r == (if accrual_ready(*old(st), Address { strkey: user }) {
                Ok::<(i128, i128), ProtocolError>(
                    (
                        accrued_position(*old(st), Address { strkey: user }).borrow_interest,
                        accrued_position(*old(st), Address { strkey: user }).supply_interest,
                    ),
                )
            } else {
                Err::<(i128, i128), ProtocolError>(ProtocolError::Unknown)
            }),
            r is Ok ==> *final(st) == (ProtocolState {
                interest_state: InterestRateStorage::refreshed(*old(st)),
                ..*old(st)
            }),
            r is Err ==> *final(st) == *old(st),
    {
        let user_addr = Address::from_string(&user);
        let (rates, position) = Self::accrue_account(st, &user_addr)?;
        st.interest_state = rates;
        Ok((position.borrow_interest, position.supply_interest))
    }

    /// The rate curve: base rate, kink, multiplier, reserve factor, floor,
    /// ceiling, and when it was last changed.
    pub fn get_interest_rate_config(st: &ProtocolState) -> (r: Result<
        (i128, i128, i128, i128, i128, i128, u64),
        ProtocolError,
    >)
        ensures
            r == Ok::<(i128, i128, i128, i128, i128, i128, u64), ProtocolError>(
                (
                    st.interest_config.base_rate,
                    st.interest_config.kink_utilization,
                    st.interest_config.multiplier,
                    st.interest_config.reserve_factor,
                    st.interest_config.rate_floor,
                    st.interest_config.rate_ceiling,
                    st.interest_config.last_update,
                ),
            ),
    {
        let config = InterestRateStorage::get_config(st);
        Ok(
            (
                config.base_rate,
                config.kink_utilization,
                config.multiplier,
                config.reserve_factor,
                config.rate_floor,
                config.rate_ceiling,
                config.last_update,
            ),
        )
    }

    /// A greeting for `to`.
    pub fn hello(to: String) -> (r: Vec<String>)
        ensures
            texts(r@) == seq!["Hello"@, to@],
    {
        let r = vec![text("Hello"), to];
        assert(texts(r@) =~= seq!["Hello"@, to@]);
        r
    }

    /// The stored position of `user`, or an empty one.
    pub open spec fn stored_position(st: ProtocolState, user: String) -> Position {
        st.position_of(Address { strkey: user })
    }

    /// Collateral, debt and ratio at the quoted price of `user`. A position
    /// with debt is priced, and the quoted price is stored if the feed's
    /// price is accepted.
    pub fn get_position(st: &mut ProtocolState, user: String) -> (r: Result<
        (i128, i128, i128),
        ProtocolError,
    >)
        requires
            old(st).wf(),
        ensures
            final(st).wf(),
            r == (if ratio_fits(
                Self::stored_position(*old(st), user).collateral as int,
                RealPriceOracle::quote(*old(st)) as int,
                Self::stored_position(*old(st), user).debt as int,
            ) {
                Ok::<(i128, i128, i128), ProtocolError>(
                    (
                        Self::stored_position(*old(st), user).collateral,
                        Self::stored_position(*old(st), user).debt,
                        ratio(
                            Self::stored_position(*old(st), user).collateral as int,
                            RealPriceOracle::quote(*old(st)) as int,
                            Self::stored_position(*old(st), user).debt as int,
                        ) as i128,
                    ),
                )
            } else {
                Err::<(i128, i128, i128), ProtocolError>(ProtocolError::Unknown)
            }),
            r is Ok ==> *final(st) == (if Self::stored_position(*old(st), user).debt != 0 {
                RealPriceOracle::after_quote(*old(st))
            } else {
                *old(st)
            }),
            r is Err ==> *final(st) == *old(st),
    {
        let user_addr = Address::from_string(&user);
        let position = match StateHelper::get_position(st, &user_addr) {
            Some(p) => p,
            None => Position::new(user_addr, 0, 0),
        };
        let (price, accepted) = RealPriceOracle::peek(st);
        let ratio = match checked_ratio(position.collateral, price, position.debt) {
            Some(v) => v,
            None => { return Err(ProtocolError::Unknown); },
        };
        if position.debt != 0 && accepted {
            st.oracle_price = price;
            st.oracle_last_update = st.timestamp;
        }
        Ok((position.collateral, position.debt, ratio))
    }

    /// The administrator, the price source and the minimum ratio.
    pub fn get_protocol_params(st: &ProtocolState) -> (r: Result<
        (Address, Address, i128),
        ProtocolError,
    >)
        ensures
            r == (if st.admin is None {
                Err::<(Address, Address, i128), ProtocolError>(ProtocolError::AdminNotSet)
            } else if st.oracle is None {
                Err::<(Address, Address, i128), ProtocolError>(ProtocolError::OracleNotSet)
            } else {
                Ok::<(Address, Address, i128), ProtocolError>(
                    (st.admin->0, st.oracle->0, st.min_collateral_ratio),
                )
            }),
    {
        if st.admin.is_none() {
            return Err(ProtocolError::AdminNotSet);
        }
        if st.oracle.is_none() {
            return Err(ProtocolError::OracleNotSet);
        }
        Ok(
            (
                ProtocolConfig::get_admin(st),
                ProtocolConfig::get_oracle(st),
                ProtocolConfig::get_min_collateral_ratio(st),
            ),
        )
    }

    /// Totals over all positions. They are not tracked yet and read as zero.
    pub fn get_system_stats(st: &ProtocolState) -> (r: Result<(i128, i128), ProtocolError>)
        ensures
            r == Ok::<(i128, i128), ProtocolError>((0i128, 0i128)),
    {
        Ok((0, 0))
    }

    /// Past events of one account. The ledger keeps none: the list is empty.
    pub fn get_user_event_history(st: &ProtocolState, user: String, event_type: String) -> (r:
        Result<Vec<(String, i128, String)>, ProtocolError>)
        ensures
            r is Ok,
            r->Ok_0@.len() == 0,
    {
        Ok(Vec::new())
    }

    /// The latest events. The ledger keeps none: the list is empty.
    pub fn get_recent_events(st: &ProtocolState, limit: u32) -> (r: Result<
        Vec<(String, String, i128, String)>,
        ProtocolError,
    >)
        ensures
            r is Ok,
            r->Ok_0@.len() == 0,
    {
        Ok(Vec::new())
    }

    /// Event history is read from the log that the caller delivers; asking
    /// the protocol for it always succeeds and tells nothing.
    pub fn event_indexer_example_doc() -> (r: Result<(), ProtocolError>)
        ensures
            r is Ok,
    {
        Ok(())
    }

    /// Sets the close factor and the liquidation incentive.
    pub fn set_risk_params(
        st: &mut ProtocolState,
        caller: String,
        close_factor: i128,
        liquidation_incentive: i128,
    ) -> (r: Result<(), ProtocolError>)
        ensures
            r == admin_gate(*old(st), caller@),
            r is Ok ==> *final(st) == (ProtocolState {
                risk_config: RiskConfig {
                    close_factor,
                    liquidation_incentive,
                    last_update: old(st).timestamp,
                    ..old(st).risk_config
                },
                ..*old(st)
            }),
            r is Err ==> *final(st) == *old(st),
    {
        let caller_addr = Address::from_string(&caller);
        ProtocolConfig::require_admin(st, &caller_addr)?;
        st.risk_config.close_factor = close_factor;
        st.risk_config.liquidation_incentive = liquidation_incentive;
        st.risk_config.last_update = st.timestamp;
        Ok(())
    }

    /// Sets the four pause switches.
    pub fn set_pause_switches(
        st: &mut ProtocolState,
        caller: String,
        pause_borrow: bool,
        pause_deposit: bool,
        pause_withdraw: bool,
        pause_liquidate: bool,
    ) -> (r: Result<(), ProtocolError>)
        ensures
            r == admin_gate(*old(st), caller@),
            r is Ok ==> *final(st) == (ProtocolState {
                risk_config: RiskConfig {
                    pause_borrow,
                    pause_deposit,
                    pause_withdraw,
                    pause_liquidate,
                    last_update: old(st).timestamp,
                    ..old(st).risk_config
                },
                ..*old(st)
            }),
            r is Err ==> *final(st) == *old(st),
    {
        let caller_addr = Address::from_string(&caller);
        ProtocolConfig::require_admin(st, &caller_addr)?;
        st.risk_config.pause_borrow = pause_borrow;
        st.risk_config.pause_deposit = pause_deposit;
        st.risk_config.pause_withdraw = pause_withdraw;
        st.risk_config.pause_liquidate = pause_liquidate;
        st.risk_config.last_update = st.timestamp;
        Ok(())
    }

    /// Close factor, liquidation incentive, the four pause switches, and
    /// when they were last changed.
    pub fn get_risk_config(st: &ProtocolState) -> (r: (i128, i128, bool, bool, bool, bool, u64))
        ensures
            r == (
                st.risk_config.close_factor,
                st.risk_config.liquidation_incentive,
                st.risk_config.pause_borrow,
                st.risk_config.pause_deposit,
                st.risk_config.pause_withdraw,
                st.risk_config.pause_liquidate,
                st.risk_config.last_update,
            ),
    {
        let config = st.risk_config;
        (
            config.close_factor,
            config.liquidation_incentive,
            config.pause_borrow,
            config.pause_deposit,
            config.pause_withdraw,
            config.pause_liquidate,
            config.last_update,
        )
    }
}

} // verus!
