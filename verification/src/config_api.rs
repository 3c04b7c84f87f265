//! The entry points of configuration governance. Settings arrive as plain
//! tuples and are assembled into a configuration before they are judged.

use crate::config::{
    acceptable, settings_errors, settings_warnings, texts, AssetConfiguration,
    ConfigurationValidator, ConfigurationVersion, ConfigurationView, OracleConfiguration,
    ProtocolConfiguration, ProtocolParameters, Settings,
};
use crate::config_manager::{
    activated, decimal, next_stamp, ConfigurationManager, APPLIED_PREFIX,
};
use crate::errors::ProtocolError;
use crate::lending::Contract;
use crate::state::ProtocolState;
use crate::types::{Address, InterestRateConfig, ProposalStatus, RiskConfig};
use vstd::prelude::*;

verus! {

/// Base rate, kink, multiplier, reserve factor, ceiling, floor.
pub type RateTerms = (i128, i128, i128, i128, i128, i128);

/// Close factor, liquidation incentive, and the switches that pause
/// borrowing, deposits, withdrawals and liquidations.
pub type RiskTerms = (i128, i128, bool, bool, bool, bool);

/// Price source, maximum deviation, heartbeat, fallback price, enabled.
pub type OracleTerms = (String, i128, u64, i128, bool);

/// Minimum ratio, treasury, distribution frequency, emergency pause,
/// maximum number of assets.
pub type ParamTerms = (i128, String, u64, bool, u32);

/// Symbol, decimals, price source, minimum ratio, rate terms, risk terms,
/// deposits enabled, borrowing enabled.
pub type AssetTerms = (String, u32, String, i128, RateTerms, RiskTerms, bool, bool);

/// The rate curve that the terms describe, stamped with `now`.
pub open spec fn rate_settings(t: RateTerms, now: u64) -> InterestRateConfig {
    InterestRateConfig {
        base_rate: t.0,
        kink_utilization: t.1,
        multiplier: t.2,
        reserve_factor: t.3,
        rate_ceiling: t.4,
        rate_floor: t.5,
        last_update: now,
    }
}

/// The risk settings that the terms describe, stamped with `now`.
pub open spec fn risk_settings(t: RiskTerms, now: u64) -> RiskConfig {
    RiskConfig {
        close_factor: t.0,
        liquidation_incentive: t.1,
        pause_borrow: t.2,
        pause_deposit: t.3,
        pause_withdraw: t.4,
        pause_liquidate: t.5,
        last_update: now,
    }
}

/// The price source settings that the terms describe.
pub open spec fn oracle_settings(t: OracleTerms) -> OracleConfiguration {
    OracleConfiguration {
        oracle_address: Address { strkey: t.0 },
        max_deviation: t.1,
        heartbeat: t.2,
        fallback_price: t.3,
        enabled: t.4,
    }
}

/// The protocol parameters that the terms describe.
pub open spec fn parameter_settings(t: ParamTerms) -> ProtocolParameters {
    ProtocolParameters {
        min_collateral_ratio: t.0,
        treasury_address: Address { strkey: t.1 },
        distribution_frequency: t.2,
        emergency_pause_enabled: t.3,
        max_assets: t.4,
    }
}

/// The settings of one asset that the terms describe, stamped with `now`.
pub open spec fn asset_settings(t: AssetTerms, now: u64) -> AssetConfiguration {
    AssetConfiguration {
        symbol: t.0,
        decimals: t.1,
        oracle_address: Address { strkey: t.2 },
        min_collateral_ratio: t.3,
        interest_config: rate_settings(t.4, now),
        risk_config: risk_settings(t.5, now),
        deposit_enabled: t.6,
        borrow_enabled: t.7,
    }
}

/// The settings that the given terms describe at the time `now`.
pub open spec fn assembled(
    interest: RateTerms,
    risk: RiskTerms,
    oracle: OracleTerms,
    params: ParamTerms,
    assets: Seq<AssetTerms>,
    now: u64,
) -> Settings {
    Settings {
        interest_config: rate_settings(interest, now),
        risk_config: risk_settings(risk, now),
        oracle_config: oracle_settings(oracle),
        protocol_params: parameter_settings(params),
        asset_configs: assets.map_values(|t: AssetTerms| asset_settings(t, now)),
    }
}

impl Contract {
    /// The rate curve that the terms describe, stamped with `now`.
    pub fn rate_config_from(t: &RateTerms, now: u64) -> (r: InterestRateConfig)
        ensures
            r == rate_settings(*t, now),
    {
        InterestRateConfig {
            base_rate: t.0,
            kink_utilization: t.1,
            multiplier: t.2,
            reserve_factor: t.3,
            rate_ceiling: t.4,
            rate_floor: t.5,
            last_update: now,
        }
    }

    /// The risk settings that the terms describe, stamped with `now`.
    pub fn risk_config_from(t: &RiskTerms, now: u64) -> (r: RiskConfig)
        ensures
            r == risk_settings(*t, now),
    {
        RiskConfig {
            close_factor: t.0,
            liquidation_incentive: t.1,
            pause_borrow: t.2,
            pause_deposit: t.3,
            pause_withdraw: t.4,
            pause_liquidate: t.5,
            last_update: now,
        }
    }

    /// The configuration that the given terms describe, with an empty
    /// version stamp in the name of `creator`.
    pub fn assemble_configuration(
        now: u64,
        creator: &Address,
        interest_config: &RateTerms,
        risk_config: &RiskTerms,
        oracle_config: &OracleTerms,
        protocol_params: &ParamTerms,
        asset_configs: &Vec<AssetTerms>,
    ) -> (r: ProtocolConfiguration)
        ensures
            r.settings() == assembled(
                *interest_config,
                *risk_config,
                *oracle_config,
                *protocol_params,
                asset_configs@,
                now,
            ),
            r.version.version == 0,
            r.version.created_at == 0,
            r.version.created_by == *creator,
            r.version.description@.len() == 0,
            !r.version.is_active,
    {
        let mut assets: Vec<AssetConfiguration> = Vec::new();
        let mut i: usize = 0;
        while i < asset_configs.len()
            invariant
                0 <= i <= asset_configs@.len(),
                assets@.len() == i,
                forall|j: int| 0 <= j < i ==> assets@[j] == asset_settings(asset_configs@[j], now),
            decreases asset_configs@.len() - i,
        {
            let t = &asset_configs[i];
            assets.push(
                AssetConfiguration {
                    symbol: t.0.clone(),
                    decimals: t.1,
                    oracle_address: Address::from_string(&t.2),
                    min_collateral_ratio: t.3,
                    interest_config: Self::rate_config_from(&t.4, now),
                    risk_config: Self::risk_config_from(&t.5, now),
                    deposit_enabled: t.6,
                    borrow_enabled: t.7,
                },
            );
            i += 1;
        }
        assert(assets@ =~= asset_configs@.map_values(|t: AssetTerms| asset_settings(t, now)));
        ProtocolConfiguration {
            version: ConfigurationVersion {
                version: 0,
                created_at: 0,
                created_by: creator.clone(),
                description: String::new(),
                is_active: false,
            },
            interest_config: Self::rate_config_from(interest_config, now),
            risk_config: Self::risk_config_from(risk_config, now),
            oracle_config: OracleConfiguration {
                oracle_address: Address::from_string(&oracle_config.0),
                max_deviation: oracle_config.1,
                heartbeat: oracle_config.2,
                fallback_price: oracle_config.3,
                enabled: oracle_config.4,
            },
            protocol_params: ProtocolParameters {
                min_collateral_ratio: protocol_params.0,
                treasury_address: Address::from_string(&protocol_params.1),
                distribution_frequency: protocol_params.2,
                emergency_pause_enabled: protocol_params.3,
                max_assets: protocol_params.4,
            },
            asset_configs: assets,
        }
    }

    /// Validates the given settings and activates them as a new version,
    /// whose number is returned.
    pub fn create_configuration(
        st: &mut ProtocolState,
        admin: String,
        description: String,
        interest_config: RateTerms,
        risk_config: RiskTerms,
        oracle_config: OracleTerms,
        protocol_params: ParamTerms,
        asset_configs: Vec<AssetTerms>,
    ) -> (r: Result<u32, ProtocolError>)
        requires
            old(st).wf(),
        ensures
            final(st).wf(),
            r == (match ConfigurationManager::activation_refusal(
                *old(st),
                admin@,
                assembled(
                    interest_config,
                    risk_config,
                    oracle_config,
                    protocol_params,
                    asset_configs@,
                    old(st).timestamp,
                ),
            ) {
                Some(e) => Err::<u32, ProtocolError>(e),
                None => Ok((old(st).version_counter + 1) as u32),
            }),
            r is Err ==> *final(st) == *old(st),
            r is Ok ==> activated(
                *old(st),
                *final(st),
                ConfigurationView {
                    version: next_stamp(*old(st), Address { strkey: admin }, description),
                    settings: assembled(
                        interest_config,
                        risk_config,
                        oracle_config,
                        protocol_params,
                        asset_configs@,
                        old(st).timestamp,
                    ),
                },
            ),
    {
        let admin_addr = Address::from_string(&admin);
        let draft = Self::assemble_configuration(
            st.timestamp,
            &admin_addr,
            &interest_config,
            &risk_config,
            &oracle_config,
            &protocol_params,
            &asset_configs,
        );
        let config = ConfigurationManager::create_configuration(
            st,
            &admin_addr,
            &description,
            draft.interest_config,
            draft.risk_config,
            draft.oracle_config,
            draft.protocol_params,
            draft.asset_configs,
        )?;
        Ok(config.version.version)
    }

    /// Validates the given settings and activates them in place of the
    /// active configuration. The number of the new version is returned.
    pub fn update_configuration(
        st: &mut ProtocolState,
        admin: String,
        description: String,
        interest_config: RateTerms,
        risk_config: RiskTerms,
        oracle_config: OracleTerms,
        protocol_params: ParamTerms,
        asset_configs: Vec<AssetTerms>,
    ) -> (r: Result<u32, ProtocolError>)
        requires
            old(st).wf(),
        ensures
            final(st).wf(),
            r == (match ConfigurationManager::update_refusal(
                *old(st),
                admin@,
                assembled(
                    interest_config,
                    risk_config,
                    oracle_config,
                    protocol_params,
                    asset_configs@,
                    old(st).timestamp,
                ),
            ) {
                Some(e) => Err::<u32, ProtocolError>(e),
                None => Ok((old(st).version_counter + 1) as u32),
            }),
            r is Err ==> *final(st) == *old(st),
            r is Ok ==> activated(
                *old(st),
                *final(st),
                ConfigurationView {
                    version: next_stamp(*old(st), Address { strkey: admin }, description),
                    settings: assembled(
                        interest_config,
                        risk_config,
                        oracle_config,
                        protocol_params,
                        asset_configs@,
                        old(st).timestamp,
                    ),
                },
            ),
    {
        let admin_addr = Address::from_string(&admin);
        let draft = Self::assemble_configuration(
            st.timestamp,
            &admin_addr,
            &interest_config,
            &risk_config,
            &oracle_config,
            &protocol_params,
            &asset_configs,
        );
        let config = ConfigurationManager::update_configuration(
            st,
            &admin_addr,
            &description,
            &draft,
        )?;
        Ok(config.version.version)
    }

    /// Files a snapshot of the active configuration and returns its number.
    pub fn create_config_backup(st: &mut ProtocolState, admin: String, description: String) -> (r:
        Result<u32, ProtocolError>)
        requires
            old(st).wf(),
        ensures
            final(st).wf(),
            r == (match ConfigurationManager::backup_refusal(*old(st), admin@) {
                Some(e) => Err::<u32, ProtocolError>(e),
                None => Ok((old(st).next_backup_id + 1) as u32),
            }),
            r is Err ==> *final(st) == *old(st),
            r is Ok ==> exists|b: crate::config::ConfigurationBackup|
                ConfigurationManager::backed_up(
                    *old(st),
                    *final(st),
                    Address { strkey: admin },
                    description,
                    b,
                ),
    {
        let admin_addr = Address::from_string(&admin);
        let backup = ConfigurationManager::create_backup(st, &admin_addr, &description)?;
        Ok(backup.backup_id)
    }

    /// Activates the settings of a backup under a new version, whose number
    /// is returned.
    pub fn restore_config_backup(st: &mut ProtocolState, admin: String, backup_id: u32) -> (r:
        Result<u32, ProtocolError>)
        requires
            old(st).wf(),
        ensures
            final(st).wf(),
            r == (match ConfigurationManager::restore_refusal(*old(st), admin@, backup_id) {
                Some(e) => Err::<u32, ProtocolError>(e),
                None => Ok((old(st).version_counter + 1) as u32),
            }),
            r is Err ==> *final(st) == *old(st),
            r is Ok ==> final(st).current_config is Some && ConfigurationManager::restored(
                *old(st),
                *final(st),
                Address { strkey: admin },
                backup_id,
                final(st).current_config->0@,
            ),
    {
        let admin_addr = Address::from_string(&admin);
        let config = ConfigurationManager::restore_from_backup(st, &admin_addr, backup_id)?;
        Ok(config.version.version)
    }

    /// Files the given settings for approval and returns the number of the
    /// proposal.
    pub fn create_config_proposal(
        st: &mut ProtocolState,
        admin: String,
        description: String,
        expires_in_seconds: u64,
        interest_config: RateTerms,
        risk_config: RiskTerms,
        oracle_config: OracleTerms,
        protocol_params: ParamTerms,
        asset_configs: Vec<AssetTerms>,
    ) -> (r: Result<u32, ProtocolError>)
        requires
            old(st).wf(),
        ensures
            final(st).wf(),
            r == (match ConfigurationManager::proposal_refusal(
                *old(st),
                admin@,
                assembled(
                    interest_config,
                    risk_config,
                    oracle_config,
                    protocol_params,
                    asset_configs@,
                    old(st).timestamp,
                ),
                expires_in_seconds,
            ) {
                Some(e) => Err::<u32, ProtocolError>(e),
                None => Ok((old(st).next_proposal_id + 1) as u32),
            }),
            r is Err ==> *final(st) == *old(st),
            r is Ok ==> {
                let p = final(st).config_proposals@[r->Ok_0]@;
                &&& final(st).config_proposals@.contains_key(r->Ok_0)
                &&& final(st).config_proposals@.remove(r->Ok_0) == old(st).config_proposals@.remove(
                    r->Ok_0,
                )
                &&& p.proposal_id == r->Ok_0
                &&& p.proposed_config.settings == assembled(
                    interest_config,
                    risk_config,
                    oracle_config,
                    protocol_params,
                    asset_configs@,
                    old(st).timestamp,
                )
                &&& p.current_version == old(st).current_config->0.version.version
                &&& p.created_at == old(st).timestamp
                &&& p.created_by == (Address { strkey: admin })
                &&& p.status == ProposalStatus::Pending
                &&& p.description == description
                &&& p.expires_at == old(st).timestamp + expires_in_seconds
                &&& final(st).next_proposal_id == old(st).next_proposal_id + 1
                &&& (ProtocolState {
                    next_proposal_id: old(st).next_proposal_id,
                    config_proposals: old(st).config_proposals,
                    ..*final(st)
                }) == *old(st)
            },
    {
        let admin_addr = Address::from_string(&admin);
        let draft = Self::assemble_configuration(
            st.timestamp,
            &admin_addr,
            &interest_config,
            &risk_config,
            &oracle_config,
            &protocol_params,
            &asset_configs,
        );
        let proposal = ConfigurationManager::create_proposal(
            st,
            &admin_addr,
            &description,
            draft,
            expires_in_seconds,
        )?;
        Ok(proposal.proposal_id)
    }

    /// Approves a pending proposal and returns the number of the version
    /// that its configuration was activated under. A proposal whose time
    /// has run out is cancelled instead, and the approval fails.
    pub fn approve_config_proposal(st: &mut ProtocolState, admin: String, proposal_id: u32) -> (r:
        Result<u32, ProtocolError>)
        requires
            old(st).wf(),
        ensures
            final(st).wf(),
            r == (match ConfigurationManager::approval_refusal(*old(st), admin@, proposal_id) {
                Some(e) => Err::<u32, ProtocolError>(e),
                None => Ok((old(st).version_counter + 1) as u32),
            }),
            r is Err ==> (if ConfigurationManager::expired(*old(st), admin@, proposal_id) {
                ConfigurationManager::status_changed(
                    *old(st),
                    *final(st),
                    proposal_id,
                    ProposalStatus::Cancelled,
                )
            } else {
                *final(st) == *old(st)
            }),
            r is Ok ==> {
                &&& final(st).current_config is Some
                &&& final(st).current_config->0@.settings == old(st).config_proposals@[proposal_id]@.proposed_config.settings
                &&& final(st).current_config->0.version.description@ == APPLIED_PREFIX@ + decimal(
                    proposal_id as nat,
                )
                &&& ConfigurationManager::status_changed(
                    *old(st),
                    ProtocolState {
                        version_counter: old(st).version_counter,
                        current_config: old(st).current_config,
                        config_history: old(st).config_history,
                        ..*final(st)
                    },
                    proposal_id,
                    ProposalStatus::Approved,
                )
                &&& activated(
                    ProtocolState { config_proposals: final(st).config_proposals, ..*old(st) },
                    *final(st),
                    final(st).current_config->0@,
                )
            },
    {
        let admin_addr = Address::from_string(&admin);
        let config = ConfigurationManager::approve_proposal(st, &admin_addr, proposal_id)?;
        Ok(config.version.version)
    }

    /// Rejects a pending proposal.
    pub fn reject_config_proposal(st: &mut ProtocolState, admin: String, proposal_id: u32) -> (r:
        Result<(), ProtocolError>)
        requires
            old(st).wf(),
        ensures
            final(st).wf(),
            r == (match ConfigurationManager::decision_refusal(*old(st), admin@, proposal_id) {
                Some(e) => Err::<(), ProtocolError>(e),
                None => Ok(()),
            }),
            r is Err ==> *final(st) == *old(st),
            r is Ok ==> ConfigurationManager::status_changed(
                *old(st),
                *final(st),
                proposal_id,
                ProposalStatus::Rejected,
            ),
    {
        let admin_addr = Address::from_string(&admin);
        ConfigurationManager::reject_proposal(st, &admin_addr, proposal_id)
    }

    /// The number of the active version.
    pub fn get_current_config_version(st: &ProtocolState) -> (r: Result<u32, ProtocolError>)
        ensures
            r == (match st.current_config {
                Some(c) => Ok::<u32, ProtocolError>(c.version.version),
                None => Err::<u32, ProtocolError>(ProtocolError::NotFound),
            }),
    {
        match &st.current_config {
            Some(c) => Ok(c.version.version),
            None => Err(ProtocolError::NotFound),
        }
    }

    /// The numbers of the versions in the history, oldest first.
    pub fn get_config_history(st: &ProtocolState) -> (r: Vec<u32>)
        ensures
            r@ == st.history().map_values(|c: ConfigurationView| c.version.version),
    {
        let mut versions: Vec<u32> = Vec::new();
        let mut i: usize = 0;
        while i < st.config_history.len()
            invariant
                0 <= i <= st.config_history@.len(),
                versions@.len() == i,
                forall|j: int| 0 <= j < i ==> versions@[j] == st.config_history@[j].version.version,
            decreases st.config_history@.len() - i,
        {
            versions.push(st.config_history[i].version.version);
            i += 1;
        }
        assert(versions@ =~= st.history().map_values(|c: ConfigurationView| c.version.version));
        versions
    }

    /// Judges the given settings without storing anything: whether they can
    /// be activated, every violated rule, and the warnings.
    pub fn validate_config_params(
        st: &ProtocolState,
        interest_config: RateTerms,
        risk_config: RiskTerms,
        oracle_config: OracleTerms,
        protocol_params: ParamTerms,
        asset_configs: Vec<AssetTerms>,
    ) -> (r: Result<(bool, Vec<String>, Vec<String>), ProtocolError>)
        ensures
            r is Ok,
            r->Ok_0.0 == acceptable(
                assembled(
                    interest_config,
                    risk_config,
                    oracle_config,
                    protocol_params,
                    asset_configs@,
                    st.timestamp,
                ),
            ),
            texts(r->Ok_0.1@) == settings_errors(
                assembled(
                    interest_config,
                    risk_config,
                    oracle_config,
                    protocol_params,
                    asset_configs@,
                    st.timestamp,
                ),
            ),
            texts(r->Ok_0.2@) == settings_warnings(
                assembled(
                    interest_config,
                    risk_config,
                    oracle_config,
                    protocol_params,
                    asset_configs@,
                    st.timestamp,
                ),
            ),
    {
        let nobody = Address { strkey: String::new() };
        let draft = Self::assemble_configuration(
            st.timestamp,
            &nobody,
            &interest_config,
            &risk_config,
            &oracle_config,
            &protocol_params,
            &asset_configs,
        );
        let validation = ConfigurationValidator::validate_configuration(&draft);
        Ok((validation.is_valid, validation.errors, validation.warnings))
    }
}

} // verus!
