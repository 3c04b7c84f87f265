//! Accounting and risk-control core of a collateralized lending protocol.
//!
//! The ledger (`ProtocolState`) holds everything the protocol remembers. The
//! operations of `Contract` and the free functions of `governance` read and
//! change it; each states in its contract when it is refused and what it
//! changes when it is carried out.

pub mod activity;
pub mod admin;
pub mod assets;
pub mod config;
pub mod config_api;
pub mod config_manager;
pub mod errors;
pub mod events;
pub mod governance;
pub mod interest;
pub mod laws;
pub mod lending;
pub mod math;
pub mod oracle;
pub mod risk;
pub mod samples;
pub mod state;
pub mod table;
pub mod treasury;
pub mod types;

pub use config::{
    AssetConfiguration, ConfigurationBackup, ConfigurationProposal, ConfigurationValidator,
    ConfigurationVersion, OracleConfiguration, ProtocolConfiguration, ProtocolParameters,
    ValidationResult,
};
pub use config_manager::{ConfigurationManager, ConfigurationStorage};
pub use errors::ProtocolError;
pub use events::{EventRecord, EventValue, GovernanceEvent, ProposalEvent, ProtocolEvent};
pub use governance::{
    add_admin, approve_proposal, cancel_proposal, get_admins, get_all_proposals,
    get_proposal_by_id, get_proposals_by_status, is_address_admin, propose_asset,
    reject_proposal, remove_admin, transfer_admin,
};
pub use interest::InterestRateManager;
pub use lending::{check_aml, require_kyc, require_not_blacklisted, Contract};
pub use oracle::{MockOracle, PriceOracle, RealPriceOracle};
pub use samples::{ConfigTestUtils, TestOracle, TestUtils};
pub use state::{
    ActivityStorage, AssetStorage, BlacklistStorage, FrozenAccounts, InterestRateStorage,
    KYCStorage, OracleConfig, OracleData, ProtocolConfig, ProtocolState, ReentrancyGuard,
    ReserveStorage, RiskConfigStorage, SecurityMonitor, StateHelper,
};
pub use table::{Keyed, Table};
pub use types::{
    Address, AssetInfo, AssetPosition, AssetProposal, AssetRegistry, InterestRateConfig,
    InterestRateState, KYCStatus, Position, ProposalStatus, ProtocolActivity, ReserveData,
    RevenueMetrics, RiskConfig, UserActivity,
};
