//! Configuration governance: the active configuration and its history,
//! backups, and proposals.
//!
//! A configuration becomes active only if it passes validation. Activating
//! one hands out the next version number, marks what was active before as no
//! longer active, and appends the configuration to the history, which keeps
//! the last ten versions. A backup stands apart from the history; restoring
//! one activates its settings under a new version.

use crate::config::{
    acceptable, configurations, AssetConfiguration, ConfigurationBackup, ConfigurationProposal,
    ConfigurationValidator, ConfigurationVersion, ConfigurationView, OracleConfiguration,
    ProposalView, ProtocolConfiguration, ProtocolParameters, Settings,
};
use crate::errors::ProtocolError;
use crate::state::{changed_only_at, ProtocolConfig, ProtocolState};
use crate::types::{text, Address, InterestRateConfig, ProposalStatus, RiskConfig};
use vstd::prelude::*;

verus! {

/// How many versions the history keeps.
pub const HISTORY_LIMIT: usize = 10;

/// The description under which a restored configuration is activated.
pub const RESTORED_DESCRIPTION: &'static str = "Restored from backup";

/// The words that open the description of a configuration that came from a
/// proposal; the number of the proposal follows them.
pub const APPLIED_PREFIX: &'static str = "Applied proposal ";

/// The history `list` cut down to its limit by dropping the oldest entry.
pub open spec fn capped(list: Seq<ConfigurationView>) -> Seq<ConfigurationView> {
    if list.len() > HISTORY_LIMIT {
        list.subrange(1, list.len() as int)
    } else {
        list
    }
}

/// The character of the decimal digit `d`.
pub open spec fn digit(d: nat) -> char {
    ((48 + d) as u8) as char
}

/// The number `n` written in decimal digits.
pub open spec fn decimal(n: nat) -> Seq<char>
    decreases n,
{
    if n < 10 {
        seq![digit(n)]
    } else {
        decimal(n / 10).push(digit(n % 10))
    }
}

/// `prefix` followed by `n` in decimal digits.
///
/// Calls the standard library's formatting of a `&str` and a `u32` with
/// `{}`, which writes the text as it is and the number in decimal digits
/// without sign, padding or leading zeros. That the result is the prefix
/// followed by those digits is taken on trust.
#[verifier::external_body]
fn numbered(prefix: &'static str, n: u32) -> (r: String)
    ensures
        r@ == prefix@ + decimal(n as nat),
{
    format!("{}{}", prefix, n)
}

/// The stamp of the version that is activated next.
pub open spec fn next_stamp(st: ProtocolState, admin: Address, description: String)
    -> ConfigurationVersion {
    ConfigurationVersion {
        version: (st.version_counter + 1) as u32,
        created_at: st.timestamp,
        created_by: admin,
        description,
        is_active: true,
    }
}

/// The configuration `c` marked as no longer active.
pub open spec fn retired_one(c: ConfigurationView) -> ConfigurationView {
    ConfigurationView {
        version: ConfigurationVersion { is_active: false, ..c.version },
        settings: c.settings,
    }
}

/// The history `list` with every entry marked as no longer active.
pub open spec fn retired(list: Seq<ConfigurationView>) -> Seq<ConfigurationView> {
    list.map_values(|c: ConfigurationView| retired_one(c))
}

/// The history of the ledger with every entry marked as no longer active,
/// and with the active configuration archived behind them, marked likewise,
/// unless it is the newest entry already.
pub open spec fn archived(st: ProtocolState) -> Seq<ConfigurationView> {
    let older = retired(st.history());
    if st.current_config is Some && (older.len() == 0 || older.last().version.version
        != st.current_config->0.version.version) {
        capped(older.push(retired_one(st.current_config->0@)))
    } else {
        older
    }
}

/// What activating the configuration `c` has changed: it is the active one
/// and the newest in the history, the configuration that was active before
/// and every older entry of the history are marked as no longer active, and
/// the version of `c` is the one handed out.
pub open spec fn activated(pre: ProtocolState, post: ProtocolState, c: ConfigurationView) -> bool {
    &&& c.version.version == pre.version_counter + 1
    &&& post.version_counter == pre.version_counter + 1
    &&& post.current_config is Some
    &&& post.current_config->0@ == c
    &&& post.history() == capped(archived(pre).push(c))
    &&& (ProtocolState {
        version_counter: pre.version_counter,
        current_config: pre.current_config,
        config_history: pre.config_history,
        ..post
    }) == pre
}

/// The repository of the active configuration, the history, the backups and
/// the proposals.
pub struct ConfigurationStorage;

impl ConfigurationStorage {
    /// Makes `config` the active configuration as it is. The version counter
    /// is raised to the version of `config` where it was behind, so that no
    /// later version repeats it.
    pub fn save_current_config(st: &mut ProtocolState, config: &ProtocolConfiguration)
        requires
            old(st).wf(),
        ensures
            final(st).wf(),
            final(st).current_config is Some,
            final(st).current_config->0@ == config@,
            final(st).version_counter == (if old(st).version_counter < config.version.version {
                config.version.version
            } else {
                old(st).version_counter
            }),
            (ProtocolState {
                current_config: old(st).current_config,
                version_counter: old(st).version_counter,
                ..*final(st)
            }) == *old(st),
    {
        if st.version_counter < config.version.version {
            st.version_counter = config.version.version;
        }
        st.current_config = Some(config.clone());
    }

    /// A copy of the active configuration, if there is one.
    pub fn get_current_config(st: &ProtocolState) -> (r: Option<ProtocolConfiguration>)
        ensures
            r is Some <==> st.current_config is Some,
            r is Some ==> r->0@ == st.current_config->0@,
    {
        match &st.current_config {
            Some(c) => Some(c.clone()),
            None => None,
        }
    }

    /// Appends `config` to the history and drops the oldest entry where the
    /// history has grown beyond its limit.
    pub fn save_config_to_history(st: &mut ProtocolState, config: &ProtocolConfiguration)
        requires
            old(st).wf(),
        ensures
            final(st).wf(),
            final(st).history() == capped(old(st).history().push(config@)),
            (ProtocolState { config_history: old(st).config_history, ..*final(st) }) == *old(st),
    {
        st.config_history.push(config.clone());
        assert(configurations(st.config_history@) =~= old(st).history().push(config@));
        if st.config_history.len() > HISTORY_LIMIT {
            let ghost before = st.config_history@;
            let _oldest = st.config_history.remove(0);
            assert(configurations(st.config_history@) =~= configurations(before).subrange(
                1,
                before.len() as int,
            ));
        }
    }

    /// A copy of the version history, oldest first.
    pub fn get_config_history(st: &ProtocolState) -> (r: Vec<ProtocolConfiguration>)
        ensures
            configurations(r@) == st.history(),
    {
        let mut r: Vec<ProtocolConfiguration> = Vec::new();
        let mut i: usize = 0;
        while i < st.config_history.len()
            invariant
                0 <= i <= st.config_history@.len(),
                r@.len() == i,
                forall|j: int| 0 <= j < i ==> r@[j]@ == st.config_history@[j]@,
            decreases st.config_history@.len() - i,
        {
            r.push(st.config_history[i].clone());
            i += 1;
        }
        assert(configurations(r@) =~= st.history());
        r
    }

    /// Files a backup under its number. The version counter is raised to the
    /// version held in the backup where it was behind, so that no later
    /// version repeats it.
    pub fn save_backup(st: &mut ProtocolState, backup: &ConfigurationBackup)
        requires
            old(st).wf(),
        ensures
            final(st).wf(),
            changed_only_at(final(st).backups@, old(st).backups@, backup.backup_id),
            final(st).backups@[backup.backup_id]@ == backup@,
            final(st).version_counter == (if old(st).version_counter
                < backup.configuration.version.version {
                backup.configuration.version.version
            } else {
                old(st).version_counter
            }),
            (ProtocolState {
                backups: old(st).backups,
                version_counter: old(st).version_counter,
                ..*final(st)
            }) == *old(st),
    {
        if st.version_counter < backup.configuration.version.version {
            st.version_counter = backup.configuration.version.version;
        }
        st.backups.insert(backup.backup_id, backup.clone());
        assert(st.backups@.remove(backup.backup_id) =~= old(st).backups@.remove(backup.backup_id));
    }

    /// A copy of the backup filed under `backup_id`, if there is one.
    pub fn get_backup(st: &ProtocolState, backup_id: u32) -> (r: Option<ConfigurationBackup>)
        requires
            st.wf(),
        ensures
            r is Some <==> st.backups@.contains_key(backup_id),
            r is Some ==> r->0@ == st.backups@[backup_id]@,
    {
        match st.backups.get(&backup_id) {
            Some(b) => Some(b.clone()),
            None => None,
        }
    }

    /// Hands out the next backup number.
    pub fn get_next_backup_id(st: &mut ProtocolState) -> (r: u32)
        requires
            old(st).next_backup_id < u32::MAX,
        ensures
            r == old(st).next_backup_id + 1,
            *final(st) == (ProtocolState { next_backup_id: r, ..*old(st) }),
    {
        let next = st.next_backup_id + 1;
        st.next_backup_id = next;
        next
    }

    /// Files a proposal under its number.
    pub fn save_proposal(st: &mut ProtocolState, proposal: &ConfigurationProposal)
        requires
            old(st).wf(),
        ensures
            final(st).wf(),
            changed_only_at(
                final(st).config_proposals@,
                old(st).config_proposals@,
                proposal.proposal_id,
            ),
            final(st).config_proposals@[proposal.proposal_id]@ == proposal@,
            (ProtocolState { config_proposals: old(st).config_proposals, ..*final(st) }) == *old(st),
    {
        st.config_proposals.insert(proposal.proposal_id, proposal.clone());
        assert(st.config_proposals@.remove(proposal.proposal_id) =~= old(st).config_proposals@.remove(proposal.proposal_id));
    }

    /// A copy of the proposal filed under `proposal_id`, if there is one.
    pub fn get_proposal(st: &ProtocolState, proposal_id: u32) -> (r: Option<ConfigurationProposal>)
        requires
            st.wf(),
        ensures
            r is Some <==> st.config_proposals@.contains_key(proposal_id),
            r is Some ==> r->0@ == st.config_proposals@[proposal_id]@,
    {
        match st.config_proposals.get(&proposal_id) {
            Some(p) => Some(p.clone()),
            None => None,
        }
    }

    /// Hands out the next proposal number.
    pub fn get_next_proposal_id(st: &mut ProtocolState) -> (r: u32)
        requires
            old(st).next_proposal_id < u32::MAX,
        ensures
            r == old(st).next_proposal_id + 1,
            *final(st) == (ProtocolState { next_proposal_id: r, ..*old(st) }),
    {
        let next = st.next_proposal_id + 1;
        st.next_proposal_id = next;
        next
    }

    /// Hands out the next version number.
    pub fn get_next_version(st: &mut ProtocolState) -> (r: u32)
        requires
            old(st).version_counter < u32::MAX,
        ensures
            r == old(st).version_counter + 1,
            *final(st) == (ProtocolState { version_counter: r, ..*old(st) }),
    {
        let next = st.version_counter + 1;
        st.version_counter = next;
        next
    }
}

/// The operations of configuration governance.
pub struct ConfigurationManager;

impl ConfigurationManager {
    /// Why settings are not activated for `admin`, if so.
    pub open spec fn activation_refusal(st: ProtocolState, admin: Seq<char>, settings: Settings)
        -> Option<ProtocolError> {
        if ProtocolConfig::admin_refusal(st, admin) is Some {
            ProtocolConfig::admin_refusal(st, admin)
        } else if !acceptable(settings) {
            Some(ProtocolError::InvalidInput)
        } else if st.version_counter == u32::MAX {
            Some(ProtocolError::Unknown)
        } else {
            None
        }
    }

    /// Why settings do not replace the active configuration, if so.
    pub open spec fn update_refusal(st: ProtocolState, admin: Seq<char>, settings: Settings)
        -> Option<ProtocolError> {
        if ProtocolConfig::admin_refusal(st, admin) is Some {
            ProtocolConfig::admin_refusal(st, admin)
        } else if st.current_config is None {
            Some(ProtocolError::NotFound)
        } else if !acceptable(settings) {
            Some(ProtocolError::InvalidInput)
        } else if st.version_counter == u32::MAX {
            Some(ProtocolError::Unknown)
        } else {
            None
        }
    }

    /// Makes `config` the active configuration under the next version
    /// number.
    fn activate(st: &mut ProtocolState, config: &ProtocolConfiguration)
        requires
            old(st).wf(),
            config.version.version == old(st).version_counter + 1,
        ensures
            final(st).wf(),
            activated(*old(st), *final(st), config@),
    {
        let _version = ConfigurationStorage::get_next_version(st);
        Self::retire_history(st);
        Self::archive_active(st);
        ConfigurationStorage::save_config_to_history(st, config);
        ConfigurationStorage::save_current_config(st, config);
    }

    /// Appends the active configuration to the history, marked as no longer
    /// active, unless it is the newest entry already.
    fn archive_active(st: &mut ProtocolState)
        requires
            old(st).wf(),
        ensures
            final(st).wf(),
            final(st).history() == (if old(st).current_config is Some && (old(st).history().len()
                == 0 || old(st).history().last().version.version != old(st).current_config->0.version.version) {
                capped(old(st).history().push(retired_one(old(st).current_config->0@)))
            } else {
                old(st).history()
            }),
            (ProtocolState { config_history: old(st).config_history, ..*final(st) }) == *old(st),
    {
        let prior = match &st.current_config {
            Some(c) => c.clone(),
            None => { return ; },
        };
        let n = st.config_history.len();
        if n == 0 || st.config_history[n - 1].version.version != prior.version.version {
            let mut entry = prior;
            entry.version.is_active = false;
            ConfigurationStorage::save_config_to_history(st, &entry);
        }
    }

    /// Marks every entry of the history as no longer active.
    fn retire_history(st: &mut ProtocolState)
        requires
            old(st).wf(),
        ensures
            final(st).wf(),
            final(st).history() == retired(old(st).history()),
            (ProtocolState { config_history: old(st).config_history, ..*final(st) }) == *old(st),
    {
        let mut next: Vec<ProtocolConfiguration> = Vec::new();
        let mut i: usize = 0;
        while i < st.config_history.len()
            invariant
                *st == *old(st),
                0 <= i <= st.config_history@.len(),
                next@.len() == i,
                forall|j: int| 0 <= j < i ==> next@[j]@ == retired_one(st.config_history@[j]@),
            decreases st.config_history@.len() - i,
        {
            let mut entry = st.config_history[i].clone();
            entry.version.is_active = false;
            next.push(entry);
            i += 1;
        }
        assert(configurations(next@) =~= retired(old(st).history()));
        st.config_history = next;
    }

    /// Validates the given settings and activates them as a new version.
    pub fn create_configuration(
        st: &mut ProtocolState,
        admin: &Address,
        description: &String,
        interest_config: InterestRateConfig,
        risk_config: RiskConfig,
        oracle_config: OracleConfiguration,
        protocol_params: ProtocolParameters,
        asset_configs: Vec<AssetConfiguration>,
    ) -> (r: Result<ProtocolConfiguration, ProtocolError>)
        requires
            old(st).wf(),
        ensures
            final(st).wf(),
            match r {
                Err(e) => Self::activation_refusal(
                    *old(st),
                    admin@,
                    Settings {
                        interest_config,
                        risk_config,
                        oracle_config,
                        protocol_params,
                        asset_configs: asset_configs@,
                    },
                ) == Some(e) && *final(st) == *old(st),
                Ok(c) => Self::activation_refusal(
                    *old(st),
                    admin@,
                    Settings {
                        interest_config,
                        risk_config,
                        oracle_config,
                        protocol_params,
                        asset_configs: asset_configs@,
                    },
                ) is None && c@ == (ConfigurationView {
                    version: next_stamp(*old(st), *admin, *description),
                    settings: Settings {
                        interest_config,
                        risk_config,
                        oracle_config,
                        protocol_params,
                        asset_configs: asset_configs@,
                    },
                }) && activated(*old(st), *final(st), c@),
            },
    {
        ProtocolConfig::require_admin(st, admin)?;
        let mut config = ProtocolConfiguration {
            version: ConfigurationVersion {
                version: 0,
                created_at: st.timestamp,
                created_by: admin.clone(),
                description: description.clone(),
                is_active: true,
            },
            interest_config,
            risk_config,
            oracle_config,
            protocol_params,
            asset_configs,
        };
        let validation = ConfigurationValidator::validate_configuration(&config);
        if !validation.is_valid {
            return Err(ProtocolError::InvalidInput);
        }
        if st.version_counter == u32::MAX {
            return Err(ProtocolError::Unknown);
        }
        config.version.version = st.version_counter + 1;
        Self::activate(st, &config);
        Ok(config)
    }

    /// Validates the settings of `updates` and activates them as a new
    /// version in place of the active configuration.
    pub fn update_configuration(
        st: &mut ProtocolState,
        admin: &Address,
        description: &String,
        updates: &ProtocolConfiguration,
    ) -> (r: Result<ProtocolConfiguration, ProtocolError>)
        requires
            old(st).wf(),
        ensures
            final(st).wf(),
            match r {
                Err(e) => Self::update_refusal(*old(st), admin@, updates.settings()) == Some(e)
                    && *final(st) == *old(st),
                Ok(c) => Self::update_refusal(*old(st), admin@, updates.settings()) is None && c@
                    == (ConfigurationView {
                    version: next_stamp(*old(st), *admin, *description),
                    settings: updates.settings(),
                }) && activated(*old(st), *final(st), c@),
            },
    {
        ProtocolConfig::require_admin(st, admin)?;
        if st.current_config.is_none() {
            return Err(ProtocolError::NotFound);
        }
        let mut config = updates.clone();
        config.version = ConfigurationVersion {
            version: 0,
            created_at: st.timestamp,
            created_by: admin.clone(),
            description: description.clone(),
            is_active: true,
        };
        let validation = ConfigurationValidator::validate_configuration(&config);
        if !validation.is_valid {
            return Err(ProtocolError::InvalidInput);
        }
        if st.version_counter == u32::MAX {
            return Err(ProtocolError::Unknown);
        }
        config.version.version = st.version_counter + 1;
        Self::activate(st, &config);
        Ok(config)
    }

    /// Why no backup is made for `admin`, if so.
    pub open spec fn backup_refusal(st: ProtocolState, admin: Seq<char>) -> Option<ProtocolError> {
        if ProtocolConfig::admin_refusal(st, admin) is Some {
            ProtocolConfig::admin_refusal(st, admin)
        } else if st.current_config is None {
            Some(ProtocolError::NotFound)
        } else if st.next_backup_id == u32::MAX {
            Some(ProtocolError::Unknown)
        } else {
            None
        }
    }

    /// What making the backup `b` has changed: it is filed under the number
    /// handed out and holds the active configuration as it is.
    pub open spec fn backed_up(
        pre: ProtocolState,
        post: ProtocolState,
        admin: Address,
        description: String,
        b: ConfigurationBackup,
    ) -> bool {
        &&& pre.current_config is Some
        &&& b@ == (crate::config::BackupView {
            backup_id: (pre.next_backup_id + 1) as u32,
            configuration: pre.current_config->0@,
            created_at: pre.timestamp,
            created_by: admin,
            description,
        })
        &&& post.next_backup_id == pre.next_backup_id + 1
        &&& changed_only_at(post.backups@, pre.backups@, b.backup_id)
        &&& post.backups@[b.backup_id]@ == b@
        &&& (ProtocolState {
            next_backup_id: pre.next_backup_id,
            backups: pre.backups,
            ..post
        }) == pre
    }

    /// Files a snapshot of the active configuration.
    pub fn create_backup(st: &mut ProtocolState, admin: &Address, description: &String) -> (r:
        Result<ConfigurationBackup, ProtocolError>)
        requires
            old(st).wf(),
        ensures
            final(st).wf(),
            match r {
                Err(e) => Self::backup_refusal(*old(st), admin@) == Some(e) && *final(st) == *old(st),
                Ok(b) => Self::backup_refusal(*old(st), admin@) is None && Self::backed_up(
                    *old(st),
                    *final(st),
                    *admin,
                    *description,
                    b,
                ),
            },
    {
        ProtocolConfig::require_admin(st, admin)?;
        let current = match ConfigurationStorage::get_current_config(st) {
            Some(c) => c,
            None => { return Err(ProtocolError::NotFound); },
        };
        if st.next_backup_id == u32::MAX {
            return Err(ProtocolError::Unknown);
        }
        let timestamp = st.timestamp;
        let backup = ConfigurationBackup {
            backup_id: ConfigurationStorage::get_next_backup_id(st),
            configuration: current,
            created_at: timestamp,
            created_by: admin.clone(),
            description: description.clone(),
        };
        ConfigurationStorage::save_backup(st, &backup);
        Ok(backup)
    }

    /// Why no backup is restored for `admin`, if so.
    pub open spec fn restore_refusal(st: ProtocolState, admin: Seq<char>, backup_id: u32) -> Option<
        ProtocolError,
    > {
        if ProtocolConfig::admin_refusal(st, admin) is Some {
            ProtocolConfig::admin_refusal(st, admin)
        } else if !st.backups@.contains_key(backup_id) {
            Some(ProtocolError::NotFound)
        } else if st.version_counter == u32::MAX {
            Some(ProtocolError::Unknown)
        } else {
            None
        }
    }

    /// What restoring a backup as the configuration `c` has changed: `c`
    /// has the settings of the backup and a new version stamp, and is
    /// activated.
    pub open spec fn restored(
        pre: ProtocolState,
        post: ProtocolState,
        admin: Address,
        backup_id: u32,
        c: ConfigurationView,
    ) -> bool {
        &&& pre.backups@.contains_key(backup_id)
        &&& c.settings == pre.backups@[backup_id]@.configuration.settings
        &&& c.version.created_at == pre.timestamp
        &&& c.version.created_by == admin
        &&& c.version.description@ == RESTORED_DESCRIPTION@
        &&& c.version.is_active
        &&& activated(pre, post, c)
    }

    /// A step of the ledger that leaves the stored backups as they are and
    /// does not lower the version counter.
    pub open spec fn leaves_backups(pre: ProtocolState, post: ProtocolState) -> bool {
        post.backups == pre.backups && post.version_counter >= pre.version_counter
    }

    /// Activates the settings of a backup under a new version. The history
    /// is not rewritten.
    pub fn restore_from_backup(st: &mut ProtocolState, admin: &Address, backup_id: u32) -> (r:
        Result<ProtocolConfiguration, ProtocolError>)
        requires
            old(st).wf(),
        ensures
            final(st).wf(),
            match r {
                Err(e) => Self::restore_refusal(*old(st), admin@, backup_id) == Some(e) && *final(st) == *old(st),
                Ok(c) => Self::restore_refusal(*old(st), admin@, backup_id) is None
                    && Self::restored(*old(st), *final(st), *admin, backup_id, c@)
                    && c.version.version > old(st).backups@[backup_id].configuration.version.version && (old(st).current_config
                    is Some ==> c.version.version > old(st).current_config->0.version.version),
            },
    {
        ProtocolConfig::require_admin(st, admin)?;
        let backup = match ConfigurationStorage::get_backup(st, backup_id) {
            Some(b) => b,
            None => { return Err(ProtocolError::NotFound); },
        };
        if st.version_counter == u32::MAX {
            return Err(ProtocolError::Unknown);
        }
        let mut config = backup.configuration;
        config.version = ConfigurationVersion {
            version: st.version_counter + 1,
            created_at: st.timestamp,
            created_by: admin.clone(),
            description: text(RESTORED_DESCRIPTION),
            is_active: true,
        };
        Self::activate(st, &config);
        Ok(config)
    }

    /// Why no proposal is filed for `admin`, if so.
    pub open spec fn proposal_refusal(
        st: ProtocolState,
        admin: Seq<char>,
        settings: Settings,
        expires_in_seconds: u64,
    ) -> Option<ProtocolError> {
        if ProtocolConfig::admin_refusal(st, admin) is Some {
            ProtocolConfig::admin_refusal(st, admin)
        } else if st.current_config is None {
            Some(ProtocolError::NotFound)
        } else if !acceptable(settings) {
            Some(ProtocolError::InvalidInput)
        } else if st.next_proposal_id == u32::MAX || st.timestamp + expires_in_seconds
            > u64::MAX {
            Some(ProtocolError::Unknown)
        } else {
            None
        }
    }

    /// Files a configuration for approval. It is validated now and again
    /// when it is approved.
    pub fn create_proposal(
        st: &mut ProtocolState,
        admin: &Address,
        description: &String,
        proposed_config: ProtocolConfiguration,
        expires_in_seconds: u64,
    ) -> (r: Result<ConfigurationProposal, ProtocolError>)
        requires
            old(st).wf(),
        ensures
            final(st).wf(),
            match r {
                Err(e) => Self::proposal_refusal(
                    *old(st),
                    admin@,
                    proposed_config.settings(),
                    expires_in_seconds,
                ) == Some(e) && *final(st) == *old(st),
                Ok(p) => {
                    &&& Self::proposal_refusal(
                        *old(st),
                        admin@,
                        proposed_config.settings(),
                        expires_in_seconds,
                    ) is None
                    &&& p@ == (ProposalView {
                        proposal_id: (old(st).next_proposal_id + 1) as u32,
                        proposed_config: proposed_config@,
                        current_version: old(st).current_config->0.version.version,
                        created_at: old(st).timestamp,
                        created_by: *admin,
                        status: ProposalStatus::Pending,
                        description: *description,
                        expires_at: (old(st).timestamp + expires_in_seconds) as u64,
                    })
                    &&& final(st).next_proposal_id == old(st).next_proposal_id + 1
                    &&& changed_only_at(
                        final(st).config_proposals@,
                        old(st).config_proposals@,
                        p.proposal_id,
                    )
                    &&& final(st).config_proposals@[p.proposal_id]@ == p@
                    &&& (ProtocolState {
                        next_proposal_id: old(st).next_proposal_id,
                        config_proposals: old(st).config_proposals,
                        ..*final(st)
                    }) == *old(st)
                },
            },
    {
        ProtocolConfig::require_admin(st, admin)?;
        let current_version = match &st.current_config {
            Some(c) => c.version.version,
            None => { return Err(ProtocolError::NotFound); },
        };
        let validation = ConfigurationValidator::validate_configuration(&proposed_config);
        if !validation.is_valid {
            return Err(ProtocolError::InvalidInput);
        }
        if st.next_proposal_id == u32::MAX {
            return Err(ProtocolError::Unknown);
        }
        let timestamp = st.timestamp;
        let expires_at = match timestamp.checked_add(expires_in_seconds) {
            Some(v) => v,
            None => { return Err(ProtocolError::Unknown); },
        };
        let proposal = ConfigurationProposal {
            proposal_id: ConfigurationStorage::get_next_proposal_id(st),
            proposed_config,
            current_version,
            created_at: timestamp,
            created_by: admin.clone(),
            status: ProposalStatus::Pending,
            description: description.clone(),
            expires_at,
        };
        ConfigurationStorage::save_proposal(st, &proposal);
        Ok(proposal)
    }

    /// Why a pending proposal cannot be decided by `admin`, if so.
    pub open spec fn decision_refusal(st: ProtocolState, admin: Seq<char>, proposal_id: u32)
        -> Option<ProtocolError> {
        if ProtocolConfig::admin_refusal(st, admin) is Some {
            ProtocolConfig::admin_refusal(st, admin)
        } else if !st.config_proposals@.contains_key(proposal_id) {
            Some(ProtocolError::NotFound)
        } else if st.config_proposals@[proposal_id].status != ProposalStatus::Pending {
            Some(ProtocolError::InvalidOperation)
        } else {
            None
        }
    }

    /// The proposal can be decided but its time has run out.
    pub open spec fn expired(st: ProtocolState, admin: Seq<char>, proposal_id: u32) -> bool {
        Self::decision_refusal(st, admin, proposal_id) is None && st.timestamp
            > st.config_proposals@[proposal_id].expires_at
    }

    /// Why a proposal is not approved, if so.
    pub open spec fn approval_refusal(st: ProtocolState, admin: Seq<char>, proposal_id: u32)
        -> Option<ProtocolError> {
        if Self::decision_refusal(st, admin, proposal_id) is Some {
            Self::decision_refusal(st, admin, proposal_id)
        } else if Self::expired(st, admin, proposal_id) {
            Some(ProtocolError::InvalidOperation)
        } else {
            Self::update_refusal(st, admin, st.config_proposals@[proposal_id]@.proposed_config.settings)
        }
    }

    /// The ledger differs from `pre` only in the status of one proposal.
    pub open spec fn status_changed(
        pre: ProtocolState,
        post: ProtocolState,
        proposal_id: u32,
        status: ProposalStatus,
    ) -> bool {
        &&& changed_only_at(post.config_proposals@, pre.config_proposals@, proposal_id)
        &&& post.config_proposals@[proposal_id]@ == (ProposalView {
            status,
            ..pre.config_proposals@[proposal_id]@
        })
        &&& (ProtocolState { config_proposals: pre.config_proposals, ..post }) == pre
    }

    /// Marks a proposal with a new status.
    fn mark(st: &mut ProtocolState, proposal_id: u32, status: ProposalStatus)
        requires
            old(st).wf(),
            old(st).config_proposals@.contains_key(proposal_id),
        ensures
            final(st).wf(),
            Self::status_changed(*old(st), *final(st), proposal_id, status),
    {
        match st.config_proposals.remove(&proposal_id) {
            Some(mut p) => {
                p.status = status;
                st.config_proposals.insert(proposal_id, p);
                assert(st.config_proposals@.remove(proposal_id) =~= old(st).config_proposals@.remove(proposal_id));
            },
            None => {},
        }
    }

    /// Approves a pending proposal: its configuration is validated and
    /// activated, and the proposal marked approved, or nothing happens. A
    /// proposal whose time has run out is cancelled instead, and the
    /// approval fails.
    pub fn approve_proposal(st: &mut ProtocolState, admin: &Address, proposal_id: u32) -> (r:
        Result<ProtocolConfiguration, ProtocolError>)
        requires
            old(st).wf(),
        ensures
            final(st).wf(),
            match r {
                Err(e) => Self::approval_refusal(*old(st), admin@, proposal_id) == Some(e) && (
                if Self::expired(*old(st), admin@, proposal_id) {
                    Self::status_changed(
                        *old(st),
                        *final(st),
                        proposal_id,
                        ProposalStatus::Cancelled,
                    )
                } else {
                    *final(st) == *old(st)
                }),
                Ok(c) => {
                    &&& Self::approval_refusal(*old(st), admin@, proposal_id) is None
                    &&& c.settings() == old(st).config_proposals@[proposal_id]@.proposed_config.settings
                    &&& c.version.version == old(st).version_counter + 1
                    &&& c.version.created_at == old(st).timestamp
                    &&& c.version.created_by == *admin
                    &&& c.version.description@ == APPLIED_PREFIX@ + decimal(proposal_id as nat)
                    &&& c.version.is_active
                    &&& Self::status_changed(
                        *old(st),
                        ProtocolState {
                            version_counter: old(st).version_counter,
                            current_config: old(st).current_config,
                            config_history: old(st).config_history,
                            ..*final(st)
                        },
                        proposal_id,
                        ProposalStatus::Approved,
                    )
                    &&& activated(
                        ProtocolState { config_proposals: final(st).config_proposals, ..*old(st) },
                        *final(st),
                        c@,
                    )
                },
            },
    {
        ProtocolConfig::require_admin(st, admin)?;
        let proposal = match ConfigurationStorage::get_proposal(st, proposal_id) {
            Some(p) => p,
            None => { return Err(ProtocolError::NotFound); },
        };
        if proposal.status != ProposalStatus::Pending {
            return Err(ProtocolError::InvalidOperation);
        }
        if st.timestamp > proposal.expires_at {
            Self::mark(st, proposal_id, ProposalStatus::Cancelled);
            return Err(ProtocolError::InvalidOperation);
        }
        let description = numbered(APPLIED_PREFIX, proposal_id);
        let config = Self::update_configuration(st, admin, &description, &proposal.proposed_config)?;
        Self::mark(st, proposal_id, ProposalStatus::Approved);
        Ok(config)
    }

    /// Rejects a pending proposal.
    pub fn reject_proposal(st: &mut ProtocolState, admin: &Address, proposal_id: u32) -> (r: Result<
        (),
        ProtocolError,
    >)
        requires
            old(st).wf(),
        ensures
            final(st).wf(),
            r == (match Self::decision_refusal(*old(st), admin@, proposal_id) {
                Some(e) => Err::<(), ProtocolError>(e),
                None => Ok(()),
            }),
            r is Err ==> *final(st) == *old(st),
            r is Ok ==> Self::status_changed(
                *old(st),
                *final(st),
                proposal_id,
                ProposalStatus::Rejected,
            ),
    {
        ProtocolConfig::require_admin(st, admin)?;
        let proposal = match ConfigurationStorage::get_proposal(st, proposal_id) {
            Some(p) => p,
            None => { return Err(ProtocolError::NotFound); },
        };
        if proposal.status != ProposalStatus::Pending {
            return Err(ProtocolError::InvalidOperation);
        }
        Self::mark(st, proposal_id, ProposalStatus::Rejected);
        Ok(())
    }
}

} // verus!
