//! Versioned protocol configuration: the bundle of settings, the snapshots
//! and proposals made of it, and the rules a bundle must pass to be
//! activated.
//!
//! Validation never stops at the first fault. It reports every violated rule,
//! in a fixed order, and separately the warnings, which do not stand in the
//! way of activation.

use crate::types::{Address, InterestRateConfig, ProposalStatus, RiskConfig};
use vstd::prelude::*;

verus! {

/// The characters of each text in a list.
pub open spec fn texts(list: Seq<String>) -> Seq<Seq<char>> {
    list.map_values(|s: String| s@)
}

/// Who made a version of the configuration, when, and why.
#[derive(Debug, PartialEq, Eq)]
pub struct ConfigurationVersion {
    pub version: u32,
    pub created_at: u64,
    pub created_by: Address,
    pub description: String,
    pub is_active: bool,
}

impl Clone for ConfigurationVersion {
    fn clone(&self) -> (r: Self)
        ensures
            r == *self,
    {
        ConfigurationVersion {
            version: self.version,
            created_at: self.created_at,
            created_by: self.created_by.clone(),
            description: self.description.clone(),
            is_active: self.is_active,
        }
    }
}

/// Settings of the price source.
#[derive(Debug, PartialEq, Eq)]
pub struct OracleConfiguration {
    pub oracle_address: Address,
    pub max_deviation: i128,
    pub heartbeat: u64,
    pub fallback_price: i128,
    pub enabled: bool,
}

impl Clone for OracleConfiguration {
    fn clone(&self) -> (r: Self)
        ensures
            r == *self,
    {
        OracleConfiguration {
            oracle_address: self.oracle_address.clone(),
            max_deviation: self.max_deviation,
            heartbeat: self.heartbeat,
            fallback_price: self.fallback_price,
            enabled: self.enabled,
        }
    }
}

/// Settings of the protocol as a whole.
#[derive(Debug, PartialEq, Eq)]
pub struct ProtocolParameters {
    pub min_collateral_ratio: i128,
    pub treasury_address: Address,
    pub distribution_frequency: u64,
    pub emergency_pause_enabled: bool,
    pub max_assets: u32,
}

impl Clone for ProtocolParameters {
    fn clone(&self) -> (r: Self)
        ensures
            r == *self,
    {
        ProtocolParameters {
            min_collateral_ratio: self.min_collateral_ratio,
            treasury_address: self.treasury_address.clone(),
            distribution_frequency: self.distribution_frequency,
            emergency_pause_enabled: self.emergency_pause_enabled,
            max_assets: self.max_assets,
        }
    }
}

/// Settings of one asset.
#[derive(Debug, PartialEq, Eq)]
pub struct AssetConfiguration {
    pub symbol: String,
    pub decimals: u32,
    pub oracle_address: Address,
    pub min_collateral_ratio: i128,
    pub interest_config: InterestRateConfig,
    pub risk_config: RiskConfig,
    pub deposit_enabled: bool,
    pub borrow_enabled: bool,
}

impl Clone for AssetConfiguration {
    fn clone(&self) -> (r: Self)
        ensures
            r == *self,
    {
        AssetConfiguration {
            symbol: self.symbol.clone(),
            decimals: self.decimals,
            oracle_address: self.oracle_address.clone(),
            min_collateral_ratio: self.min_collateral_ratio,
            interest_config: self.interest_config,
            risk_config: self.risk_config,
            deposit_enabled: self.deposit_enabled,
            borrow_enabled: self.borrow_enabled,
        }
    }
}

/// One version of the whole configuration.
#[derive(Debug, PartialEq, Eq)]
pub struct ProtocolConfiguration {
    pub version: ConfigurationVersion,
    pub interest_config: InterestRateConfig,
    pub risk_config: RiskConfig,
    pub oracle_config: OracleConfiguration,
    pub protocol_params: ProtocolParameters,
    pub asset_configs: Vec<AssetConfiguration>,
}

/// The settings of a configuration without its version stamp.
pub struct Settings {
    pub interest_config: InterestRateConfig,
    pub risk_config: RiskConfig,
    pub oracle_config: OracleConfiguration,
    pub protocol_params: ProtocolParameters,
    pub asset_configs: Seq<AssetConfiguration>,
}

/// A configuration as a mathematical value.
pub struct ConfigurationView {
    pub version: ConfigurationVersion,
    pub settings: Settings,
}

impl View for ProtocolConfiguration {
    type V = ConfigurationView;

    open spec fn view(&self) -> ConfigurationView {
        ConfigurationView { version: self.version, settings: self.settings() }
    }
}

impl Clone for ProtocolConfiguration {
    fn clone(&self) -> (r: Self)
        ensures
            r@ == self@,
    {
        let assets = self.asset_configs.clone();
        assert(assets@ =~= self.asset_configs@);
        ProtocolConfiguration {
            version: self.version.clone(),
            interest_config: self.interest_config,
            risk_config: self.risk_config,
            oracle_config: self.oracle_config.clone(),
            protocol_params: self.protocol_params.clone(),
            asset_configs: assets,
        }
    }
}

impl ProtocolConfiguration {
    /// Everything the configuration settles, apart from its version stamp.
    pub open spec fn settings(&self) -> Settings {
        Settings {
            interest_config: self.interest_config,
            risk_config: self.risk_config,
            oracle_config: self.oracle_config,
            protocol_params: self.protocol_params,
            asset_configs: self.asset_configs@,
        }
    }
}

/// The mathematical values of a list of configurations.
pub open spec fn configurations(list: Seq<ProtocolConfiguration>) -> Seq<ConfigurationView> {
    list.map_values(|c: ProtocolConfiguration| c@)
}

/// What validation found.
#[derive(Debug, PartialEq, Eq)]
pub struct ValidationResult {
    pub is_valid: bool,
    pub errors: Vec<String>,
    pub warnings: Vec<String>,
}

/// A snapshot of a configuration, kept apart from the version history.
#[derive(Debug, PartialEq, Eq)]
pub struct ConfigurationBackup {
    pub backup_id: u32,
    pub configuration: ProtocolConfiguration,
    pub created_at: u64,
    pub created_by: Address,
    pub description: String,
}

/// A snapshot as a mathematical value.
pub struct BackupView {
    pub backup_id: u32,
    pub configuration: ConfigurationView,
    pub created_at: u64,
    pub created_by: Address,
    pub description: String,
}

impl View for ConfigurationBackup {
    type V = BackupView;

    open spec fn view(&self) -> BackupView {
        BackupView {
            backup_id: self.backup_id,
            configuration: self.configuration@,
            created_at: self.created_at,
            created_by: self.created_by,
            description: self.description,
        }
    }
}

impl Clone for ConfigurationBackup {
    fn clone(&self) -> (r: Self)
        ensures
            r@ == self@,
    {
        ConfigurationBackup {
            backup_id: self.backup_id,
            configuration: self.configuration.clone(),
            created_at: self.created_at,
            created_by: self.created_by.clone(),
            description: self.description.clone(),
        }
    }
}

/// A configuration put forward for approval.
#[derive(Debug, PartialEq, Eq)]
pub struct ConfigurationProposal {
    pub proposal_id: u32,
    pub proposed_config: ProtocolConfiguration,
    pub current_version: u32,
    pub created_at: u64,
    pub created_by: Address,
    pub status: ProposalStatus,
    pub description: String,
    pub expires_at: u64,
}

/// A proposal as a mathematical value.
pub struct ProposalView {
    pub proposal_id: u32,
    pub proposed_config: ConfigurationView,
    pub current_version: u32,
    pub created_at: u64,
    pub created_by: Address,
    pub status: ProposalStatus,
    pub description: String,
    pub expires_at: u64,
}

impl View for ConfigurationProposal {
    type V = ProposalView;

    open spec fn view(&self) -> ProposalView {
        ProposalView {
            proposal_id: self.proposal_id,
            proposed_config: self.proposed_config@,
            current_version: self.current_version,
            created_at: self.created_at,
            created_by: self.created_by,
            status: self.status,
            description: self.description,
            expires_at: self.expires_at,
        }
    }
}

impl Clone for ConfigurationProposal {
    fn clone(&self) -> (r: Self)
        ensures
            r@ == self@,
    {
        ConfigurationProposal {
            proposal_id: self.proposal_id,
            proposed_config: self.proposed_config.clone(),
            current_version: self.current_version,
            created_at: self.created_at,
            created_by: self.created_by.clone(),
            status: self.status,
            description: self.description.clone(),
            expires_at: self.expires_at,
        }
    }
}

/// `message` if `flag` holds, and nothing otherwise.
pub open spec fn note(flag: bool, message: &'static str) -> Seq<Seq<char>> {
    if flag {
        seq![message@]
    } else {
        Seq::empty()
    }
}

/// `found` followed by the faults of the rate settings.
pub open spec fn with_interest_errors(found: Seq<Seq<char>>, c: InterestRateConfig) -> Seq<
    Seq<char>,
> {
    found + note(c.base_rate < 0, "Base rate cannot be negative") + note(
        c.base_rate > 100_000_000,
        "Base rate cannot exceed 100%",
    ) + note(
        c.kink_utilization <= 0 || c.kink_utilization > 100_000_000,
        "Kink utilization must be between 0% and 100%",
    ) + note(c.multiplier < 0, "Multiplier cannot be negative") + note(
        c.reserve_factor < 0 || c.reserve_factor > 100_000_000,
        "Reserve factor must be between 0% and 100%",
    ) + note(c.rate_floor > c.rate_ceiling, "Rate floor cannot exceed rate ceiling") + note(
        c.rate_ceiling > 100_000_000,
        "Rate ceiling cannot exceed 100%",
    )
}

/// `found` followed by the faults of the risk settings.
pub open spec fn with_risk_errors(found: Seq<Seq<char>>, c: RiskConfig) -> Seq<Seq<char>> {
    found + note(
        c.close_factor <= 0 || c.close_factor > 100_000_000,
        "Close factor must be between 0% and 100%",
    ) + note(
        c.liquidation_incentive < 0 || c.liquidation_incentive > 50_000_000,
        "Liquidation incentive must be between 0% and 50%",
    )
}

/// `found` followed by the faults of the price source settings.
pub open spec fn with_oracle_errors(found: Seq<Seq<char>>, c: OracleConfiguration) -> Seq<
    Seq<char>,
> {
    found + note(
        c.max_deviation <= 0 || c.max_deviation > 100_000_000,
        "Max deviation must be between 0% and 100%",
    ) + note(c.heartbeat == 0, "Heartbeat cannot be zero") + note(
        c.fallback_price <= 0,
        "Fallback price must be positive",
    )
}

/// `found` followed by the faults of the protocol parameters.
pub open spec fn with_params_errors(found: Seq<Seq<char>>, p: ProtocolParameters) -> Seq<
    Seq<char>,
> {
    found + note(
        p.min_collateral_ratio < 100,
        "Minimum collateral ratio cannot be less than 100%",
    ) + note(p.distribution_frequency == 0, "Distribution frequency cannot be zero") + note(
        p.max_assets == 0,
        "Maximum assets cannot be zero",
    )
}

/// `found` followed by the warnings on the protocol parameters.
pub open spec fn with_params_warnings(found: Seq<Seq<char>>, p: ProtocolParameters) -> Seq<
    Seq<char>,
> {
    found + note(
        p.min_collateral_ratio > 1000,
        "Very high minimum collateral ratio may limit borrowing",
    ) + note(p.max_assets > 100, "Very high maximum assets may impact performance")
}

/// `found` followed by the faults of one asset's settings.
pub open spec fn with_asset_errors(found: Seq<Seq<char>>, a: AssetConfiguration) -> Seq<
    Seq<char>,
> {
    found + note(a.symbol@.len() == 0, "Asset symbol cannot be empty") + note(
        a.decimals > 18,
        "Asset decimals cannot exceed 18",
    ) + note(
        a.min_collateral_ratio < 100,
        "Asset minimum collateral ratio cannot be less than 100%",
    )
}

/// `found` followed by the faults of the first `n` assets, in their order.
pub open spec fn with_assets_errors(found: Seq<Seq<char>>, assets: Seq<AssetConfiguration>, n: nat)
    -> Seq<Seq<char>>
    decreases n,
{
    if n == 0 {
        found
    } else {
        with_asset_errors(with_assets_errors(found, assets, (n - 1) as nat), assets[n - 1])
    }
}

/// Every violated rule of a bundle of settings: rates first, then risk, the
/// price source, the protocol parameters, and the assets one by one.
pub open spec fn settings_errors(s: Settings) -> Seq<Seq<char>> {
    with_assets_errors(
        with_params_errors(
            with_oracle_errors(
                with_risk_errors(
                    with_interest_errors(Seq::empty(), s.interest_config),
                    s.risk_config,
                ),
                s.oracle_config,
            ),
            s.protocol_params,
        ),
        s.asset_configs,
        s.asset_configs.len(),
    )
}

/// The warnings on a bundle of settings.
pub open spec fn settings_warnings(s: Settings) -> Seq<Seq<char>> {
    with_params_warnings(Seq::empty(), s.protocol_params)
}

/// A bundle of settings can be activated when no rule is violated.
pub open spec fn acceptable(s: Settings) -> bool {
    settings_errors(s).len() == 0
}

/// The rate settings break no rule.
pub open spec fn rates_in_bounds(c: InterestRateConfig) -> bool {
    &&& 0 <= c.base_rate <= 100_000_000
    &&& 0 < c.kink_utilization <= 100_000_000
    &&& 0 <= c.multiplier
    &&& 0 <= c.reserve_factor <= 100_000_000
    &&& c.rate_floor <= c.rate_ceiling <= 100_000_000
}

/// The risk settings break no rule.
pub open spec fn risk_in_bounds(c: RiskConfig) -> bool {
    &&& 0 < c.close_factor <= 100_000_000
    &&& 0 <= c.liquidation_incentive <= 50_000_000
}

/// The price source settings break no rule.
pub open spec fn oracle_in_bounds(c: OracleConfiguration) -> bool {
    &&& 0 < c.max_deviation <= 100_000_000
    &&& c.heartbeat != 0
    &&& 0 < c.fallback_price
}

/// The protocol parameters break no rule.
pub open spec fn params_in_bounds(p: ProtocolParameters) -> bool {
    &&& 100 <= p.min_collateral_ratio
    &&& p.distribution_frequency != 0
    &&& p.max_assets != 0
}

/// The settings of one asset break no rule.
pub open spec fn asset_in_bounds(a: AssetConfiguration) -> bool {
    &&& a.symbol@.len() != 0
    &&& a.decimals <= 18
    &&& 100 <= a.min_collateral_ratio
}

/// The bundle of settings breaks no rule.
pub open spec fn settings_in_bounds(s: Settings) -> bool {
    &&& rates_in_bounds(s.interest_config)
    &&& risk_in_bounds(s.risk_config)
    &&& oracle_in_bounds(s.oracle_config)
    &&& params_in_bounds(s.protocol_params)
    &&& forall|i: int| 0 <= i < s.asset_configs.len() ==> asset_in_bounds(#[trigger] s.asset_configs[i])
}

/// The faults of the first `n` assets are none exactly when each of these
/// assets breaks no rule; faults are only ever added.
pub proof fn lemma_assets_errors(found: Seq<Seq<char>>, assets: Seq<AssetConfiguration>, n: nat)
    requires
        n <= assets.len(),
    ensures
        with_assets_errors(found, assets, n).len() >= found.len(),
        with_assets_errors(found, assets, n).len() == found.len() <==> (forall|i: int|
            0 <= i < n ==> asset_in_bounds(#[trigger] assets[i])),
    decreases n,
{
    if n > 0 {
        lemma_assets_errors(found, assets, (n - 1) as nat);
        let before = with_assets_errors(found, assets, (n - 1) as nat);
        assert(with_asset_errors(before, assets[n - 1]).len() >= before.len());
        assert(with_asset_errors(before, assets[n - 1]).len() == before.len() <==> asset_in_bounds(
            assets[n - 1],
        ));
    }
}

/// A bundle of settings can be activated exactly when it breaks no rule:
/// the rates, factors and prices lie within their bounds, and every asset
/// has a symbol, at most eighteen decimals and a minimum ratio of at least
/// 100%.
pub proof fn law_acceptable_settings(s: Settings)
    ensures
        acceptable(s) <==> settings_in_bounds(s),
        settings_in_bounds(s) ==> s.interest_config.valid() && s.risk_config.valid(),
{
    let e1 = with_interest_errors(Seq::empty(), s.interest_config);
    let e2 = with_risk_errors(e1, s.risk_config);
    let e3 = with_oracle_errors(e2, s.oracle_config);
    let e4 = with_params_errors(e3, s.protocol_params);
    assert(e1.len() == 0 <==> rates_in_bounds(s.interest_config));
    assert(e2.len() >= e1.len());
    assert(e2.len() == e1.len() <==> risk_in_bounds(s.risk_config));
    assert(e3.len() >= e2.len());
    assert(e3.len() == e2.len() <==> oracle_in_bounds(s.oracle_config));
    assert(e4.len() >= e3.len());
    assert(e4.len() == e3.len() <==> params_in_bounds(s.protocol_params));
    lemma_assets_errors(e4, s.asset_configs, s.asset_configs.len());
}

/// Appends `message` to `list` when `flag` holds.
pub fn note_if(flag: bool, message: &'static str, list: &mut Vec<String>)
    ensures
        texts(final(list)@) == texts(old(list)@) + note(flag, message),
{
    if flag {
        list.push(message.to_string());
        assert(texts(list@) =~= texts(old(list)@) + note(flag, message));
    } else {
        assert(texts(list@) =~= texts(old(list)@) + note(flag, message));
    }
}

/// The rules a configuration is judged by.
pub struct ConfigurationValidator;

impl ConfigurationValidator {
    /// Appends the faults of the rate settings to `errors`.
    pub fn validate_interest_config(
        config: &InterestRateConfig,
        errors: &mut Vec<String>,
        warnings: &mut Vec<String>,
    )
        ensures
            texts(final(errors)@) == with_interest_errors(texts(old(errors)@), *config),
            final(warnings)@ == old(warnings)@,
    {
        note_if(config.base_rate < 0, "Base rate cannot be negative", errors);
        note_if(config.base_rate > 100_000_000, "Base rate cannot exceed 100%", errors);
        note_if(
            config.kink_utilization <= 0 || config.kink_utilization > 100_000_000,
            "Kink utilization must be between 0% and 100%",
            errors,
        );
        note_if(config.multiplier < 0, "Multiplier cannot be negative", errors);
        note_if(
            config.reserve_factor < 0 || config.reserve_factor > 100_000_000,
            "Reserve factor must be between 0% and 100%",
            errors,
        );
        note_if(
            config.rate_floor > config.rate_ceiling,
            "Rate floor cannot exceed rate ceiling",
            errors,
        );
        note_if(config.rate_ceiling > 100_000_000, "Rate ceiling cannot exceed 100%", errors);
    }

    /// Appends the faults of the risk settings to `errors`.
    pub fn validate_risk_config(
        config: &RiskConfig,
        errors: &mut Vec<String>,
        warnings: &mut Vec<String>,
    )
        ensures
            texts(final(errors)@) == with_risk_errors(texts(old(errors)@), *config),
            final(warnings)@ == old(warnings)@,
    {
        note_if(
            config.close_factor <= 0 || config.close_factor > 100_000_000,
            "Close factor must be between 0% and 100%",
            errors,
        );
        note_if(
            config.liquidation_incentive < 0 || config.liquidation_incentive > 50_000_000,
            "Liquidation incentive must be between 0% and 50%",
            errors,
        );
    }

    /// Appends the faults of the price source settings to `errors`.
    pub fn validate_oracle_config(
        config: &OracleConfiguration,
        errors: &mut Vec<String>,
        warnings: &mut Vec<String>,
    )
        ensures
            texts(final(errors)@) == with_oracle_errors(texts(old(errors)@), *config),
            final(warnings)@ == old(warnings)@,
    {
        note_if(
            config.max_deviation <= 0 || config.max_deviation > 100_000_000,
            "Max deviation must be between 0% and 100%",
            errors,
        );
        note_if(config.heartbeat == 0, "Heartbeat cannot be zero", errors);
        note_if(config.fallback_price <= 0, "Fallback price must be positive", errors);
    }

    /// Appends the faults of the protocol parameters to `errors` and the
    /// warnings on them to `warnings`.
    pub fn validate_protocol_params(
        params: &ProtocolParameters,
        errors: &mut Vec<String>,
        warnings: &mut Vec<String>,
    )
        ensures
            texts(final(errors)@) == with_params_errors(texts(old(errors)@), *params),
            texts(final(warnings)@) == with_params_warnings(texts(old(warnings)@), *params),
    {
        note_if(
            params.min_collateral_ratio < 100,
            "Minimum collateral ratio cannot be less than 100%",
            errors,
        );
        note_if(
            params.min_collateral_ratio > 1000,
            "Very high minimum collateral ratio may limit borrowing",
            warnings,
        );
        note_if(
            params.distribution_frequency == 0,
            "Distribution frequency cannot be zero",
            errors,
        );
        note_if(params.max_assets == 0, "Maximum assets cannot be zero", errors);
        note_if(
            params.max_assets > 100,
            "Very high maximum assets may impact performance",
            warnings,
        );
    }

    /// Appends the faults of one asset's settings to `errors`.
    pub fn validate_asset_config(
        config: &AssetConfiguration,
        errors: &mut Vec<String>,
        warnings: &mut Vec<String>,
    )
        ensures
            texts(final(errors)@) == with_asset_errors(texts(old(errors)@), *config),
            final(warnings)@ == old(warnings)@,
    {
        note_if(config.symbol.as_str().is_empty(), "Asset symbol cannot be empty", errors);
        note_if(config.decimals > 18, "Asset decimals cannot exceed 18", errors);
        note_if(
            config.min_collateral_ratio < 100,
            "Asset minimum collateral ratio cannot be less than 100%",
            errors,
        );
    }

    /// Checks a whole configuration and reports every fault and warning.
    pub fn validate_configuration(config: &ProtocolConfiguration) -> (r: ValidationResult)
        ensures
            texts(r.errors@) == settings_errors(config.settings()),
            texts(r.warnings@) == settings_warnings(config.settings()),
            r.is_valid == acceptable(config.settings()),
            r.is_valid == settings_in_bounds(config.settings()),
    {
        proof {
            law_acceptable_settings(config.settings());
        }
        let mut errors: Vec<String> = Vec::new();
        let mut warnings: Vec<String> = Vec::new();
        assert(texts(errors@) =~= Seq::empty());
        assert(texts(warnings@) =~= Seq::empty());
        Self::validate_interest_config(&config.interest_config, &mut errors, &mut warnings);
        Self::validate_risk_config(&config.risk_config, &mut errors, &mut warnings);
        Self::validate_oracle_config(&config.oracle_config, &mut errors, &mut warnings);
        Self::validate_protocol_params(&config.protocol_params, &mut errors, &mut warnings);
        let ghost base = texts(errors@);
        let mut i: usize = 0;
        while i < config.asset_configs.len()
            invariant
                0 <= i <= config.asset_configs@.len(),
                texts(errors@) == with_assets_errors(base, config.asset_configs@, i as nat),
                texts(warnings@) == settings_warnings(config.settings()),
            decreases config.asset_configs@.len() - i,
        {
            Self::validate_asset_config(&config.asset_configs[i], &mut errors, &mut warnings);
            i += 1;
        }
        let ok = errors.len() == 0;
        ValidationResult { is_valid: ok, errors, warnings }
    }
}

} // verus!
