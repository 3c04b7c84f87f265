//! Sample identities and sample settings, for trying the protocol out.

use crate::config::{
    acceptable, AssetConfiguration, ConfigurationVersion, OracleConfiguration,
    ProtocolConfiguration, ProtocolParameters,
};
use crate::lending::Contract;
use crate::oracle::PriceOracle;
use crate::state::ProtocolState;
use crate::types::{text, Address, InterestRateConfig, RiskConfig, DEFAULT_ASSET, PLACEHOLDER_ACCOUNT};
use vstd::prelude::*;

verus! {

/// The identity of the sample administrator.
pub const SAMPLE_ADMIN: &'static str = "GCAZYE3EB54VKP3UQBX3H73VQO3SIWTZNR7NJQKJFZZ6XLADWA4C3SOC";

/// The identity of the first sample user.
pub const SAMPLE_USER_ONE: &'static str =
    "GAUA7XL5K54CC2DDGP77FJ2YBHRJLT36CPZDXWPM6MP7MANOGG77PNJU";

/// The identity of the second sample user.
pub const SAMPLE_USER_TWO: &'static str =
    "GCUA7XL5K54CC2DDGP77FJ2YBHRJLT36CPZDXWPM6MP7MANOGG77PNJU";

/// The text of the sample user with the given number.
pub open spec fn sample_user(user_id: u32) -> &'static str {
    if user_id == 0 {
        PLACEHOLDER_ACCOUNT
    } else if user_id == 1 {
        SAMPLE_USER_ONE
    } else {
        SAMPLE_USER_TWO
    }
}

/// Sample identities and a ledger set up with them.
pub struct TestUtils;

impl TestUtils {
    /// A ledger on which nothing has happened yet.
    pub fn create_test_env() -> (r: ProtocolState)
        ensures
            r.wf(),
            r.is_fresh(),
    {
        ProtocolState::new()
    }

    /// The identity written as `address_str`.
    pub fn create_test_address(address_str: &'static str) -> (r: Address)
        ensures
            r@ == address_str@,
    {
        Address { strkey: text(address_str) }
    }

    /// The identity of the sample administrator.
    pub fn create_admin_address() -> (r: Address)
        ensures
            r@ == SAMPLE_ADMIN@,
    {
        Self::create_test_address(SAMPLE_ADMIN)
    }

    /// The sample user with the given number; every number above one names
    /// the second user.
    pub fn create_user_address(user_id: u32) -> (r: Address)
        ensures
            r@ == sample_user(user_id)@,
    {
        if user_id == 0 {
            Self::create_test_address(PLACEHOLDER_ACCOUNT)
        } else if user_id == 1 {
            Self::create_test_address(SAMPLE_USER_ONE)
        } else {
            Self::create_test_address(SAMPLE_USER_TWO)
        }
    }

    /// The identity of the sample price source.
    pub fn create_oracle_address() -> (r: Address)
        ensures
            r@ == PLACEHOLDER_ACCOUNT@,
    {
        Self::create_test_address(PLACEHOLDER_ACCOUNT)
    }

    /// Sets a fresh ledger up with the sample administrator and the sample
    /// price source, and returns the administrator.
    pub fn initialize_contract(st: &mut ProtocolState) -> (r: Address)
        requires
            old(st).wf(),
            old(st).admin is None,
        ensures
            final(st).wf(),
            r@ == SAMPLE_ADMIN@,
            final(st).admin == Some(r),
            final(st).oracle is Some,
            final(st).oracle->0@ == PLACEHOLDER_ACCOUNT@,
            Contract::initialized(
                *old(st),
                ProtocolState { oracle: old(st).oracle, ..*final(st) },
                r.strkey,
            ),
    {
        let admin = Self::create_admin_address();
        let set_up = Contract::initialize(st, admin.to_string());
        let oracle = Self::create_oracle_address();
        let named = Contract::set_oracle(st, admin.to_string(), oracle.to_string());
        assert(set_up is Ok && named is Ok);
        admin
    }
}

/// An oracle that always quotes 1.5 and stores nothing.
pub struct TestOracle;

impl PriceOracle for TestOracle {
    open spec fn quote(st: ProtocolState) -> i128 {
        150_000_000
    }

    open spec fn after_quote(st: ProtocolState) -> ProtocolState {
        st
    }

    fn get_price(st: &mut ProtocolState) -> (r: i128) {
        150_000_000
    }

    fn get_last_update(st: &ProtocolState) -> (r: u64)
        ensures
            r == 0,
    {
        0
    }

    fn validate_price(st: &ProtocolState, price: i128) -> (r: bool)
        ensures
            r,
    {
        true
    }
}

/// Sample settings that pass validation.
pub struct ConfigTestUtils;

impl ConfigTestUtils {
    /// The standard rate curve.
    pub fn create_test_interest_config() -> (r: InterestRateConfig)
        ensures
            r == InterestRateConfig::standard(),
    {
        InterestRateConfig::default()
    }

    /// The standard risk settings with a liquidation incentive of 5%.
    pub fn create_test_risk_config() -> (r: RiskConfig)
        ensures
            r == (RiskConfig { liquidation_incentive: 5_000_000, ..RiskConfig::standard() }),
    {
        RiskConfig {
            close_factor: 50_000_000,
            liquidation_incentive: 5_000_000,
            pause_borrow: false,
            pause_deposit: false,
            pause_withdraw: false,
            pause_liquidate: false,
            last_update: 0,
        }
    }

    /// The sample price source with a deviation limit of 10%, a heartbeat
    /// of an hour and a fallback price of 1.0.
    pub fn create_test_oracle_config() -> (r: OracleConfiguration)
        ensures
            r.oracle_address@ == PLACEHOLDER_ACCOUNT@,
            r.max_deviation == 10_000_000,
            r.heartbeat == 3600,
            r.fallback_price == 100_000_000,
            r.enabled,
    {
        OracleConfiguration {
            oracle_address: TestUtils::create_oracle_address(),
            max_deviation: 10_000_000,
            heartbeat: 3600,
            fallback_price: 100_000_000,
            enabled: true,
        }
    }

    /// A minimum ratio of 150%, the sample administrator as treasury, daily
    /// distribution and room for ten assets.
    pub fn create_test_protocol_params() -> (r: ProtocolParameters)
        ensures
            r.min_collateral_ratio == 150,
            r.treasury_address@ == SAMPLE_ADMIN@,
            r.distribution_frequency == 86_400,
            !r.emergency_pause_enabled,
            r.max_assets == 10,
    {
        ProtocolParameters {
            min_collateral_ratio: 150,
            treasury_address: TestUtils::create_admin_address(),
            distribution_frequency: 86_400,
            emergency_pause_enabled: false,
            max_assets: 10,
        }
    }

    /// The default asset with seven decimals and the sample settings.
    pub fn create_test_asset_config() -> (r: AssetConfiguration)
        ensures
            r.symbol@ == DEFAULT_ASSET@,
            r.decimals == 7,
            r.oracle_address@ == PLACEHOLDER_ACCOUNT@,
            r.min_collateral_ratio == 150,
            r.interest_config == InterestRateConfig::standard(),
            r.risk_config == (RiskConfig {
                liquidation_incentive: 5_000_000,
                ..RiskConfig::standard()
            }),
            r.deposit_enabled,
            r.borrow_enabled,
    {
        AssetConfiguration {
            symbol: text(DEFAULT_ASSET),
            decimals: 7,
            oracle_address: TestUtils::create_oracle_address(),
            min_collateral_ratio: 150,
            interest_config: Self::create_test_interest_config(),
            risk_config: Self::create_test_risk_config(),
            deposit_enabled: true,
            borrow_enabled: true,
        }
    }

    /// A configuration of the sample settings without assets, stamped as
    /// version one of the sample administrator at the ledger's clock sample.
    /// It passes validation.
    pub fn create_test_protocol_config(st: &ProtocolState) -> (r: ProtocolConfiguration)
        ensures
            r.version.version == 1,
            r.version.created_at == st.timestamp,
            r.version.created_by@ == SAMPLE_ADMIN@,
            r.version.description@ == "Test configuration"@,
            r.version.is_active,
            r.interest_config == InterestRateConfig::standard(),
            r.risk_config == (RiskConfig {
                liquidation_incentive: 5_000_000,
                ..RiskConfig::standard()
            }),
            r.asset_configs@.len() == 0,
            acceptable(r.settings()),
    {
        let r = ProtocolConfiguration {
            version: ConfigurationVersion {
                version: 1,
                created_at: st.timestamp,
                created_by: TestUtils::create_admin_address(),
                description: text("Test configuration"),
                is_active: true,
            },
            interest_config: Self::create_test_interest_config(),
            risk_config: Self::create_test_risk_config(),
            oracle_config: Self::create_test_oracle_config(),
            protocol_params: Self::create_test_protocol_params(),
            asset_configs: Vec::new(),
        };
        proof {
            reveal_with_fuel(crate::config::with_assets_errors, 1);
            assert(crate::config::settings_errors(r.settings()) =~= Seq::empty());
        }
        r
    }
}

} // verus!
