//! The multi-asset registry: the supported assets, each with its own
//! settings, in the order in which they were listed.

use crate::errors::ProtocolError;
use crate::events::{asset_switched, asset_updated, ProtocolEvent};
use crate::lending::Contract;
use crate::state::{ProtocolConfig, ProtocolState};
use crate::types::{text, Address, AssetInfo, InterestRateConfig, RiskConfig};
use vstd::prelude::*;

verus! {

/// The word under which a switch of an asset is announced.
pub open spec fn switch_word(enabled: bool) -> &'static str {
    if enabled {
        "enabled"
    } else {
        "disabled"
    }
}

impl Contract {
    /// Why a listing is refused, if it is.
    pub open spec fn listing_refusal(
        st: ProtocolState,
        caller: Seq<char>,
        symbol: Seq<char>,
        decimals: u32,
    ) -> Option<ProtocolError> {
        if ProtocolConfig::admin_refusal(st, caller) is Some {
            ProtocolConfig::admin_refusal(st, caller)
        } else if symbol.len() == 0 {
            Some(ProtocolError::InvalidAsset)
        } else if decimals == 0 {
            Some(ProtocolError::InvalidAmount)
        } else if st.assets@.contains_key(symbol) {
            Some(ProtocolError::AlreadyInitialized)
        } else {
            None
        }
    }

    /// What a listing has changed: the asset is described with standard
    /// settings, its symbol stands last in the registry, and the listing
    /// was announced.
    pub open spec fn listed(
        pre: ProtocolState,
        post: ProtocolState,
        symbol: String,
        decimals: u32,
        oracle_address: String,
        min_collateral_ratio: i128,
    ) -> bool {
        &&& post.assets@ == pre.assets@.insert(
            symbol@,
            AssetInfo::listed(
                symbol,
                decimals,
                Address { strkey: oracle_address },
                min_collateral_ratio,
            ),
        )
        &&& post.asset_registry.supported_assets@ == pre.asset_registry.supported_assets@.push(
            symbol,
        )
        &&& post.asset_registry.default_asset == pre.asset_registry.default_asset
        &&& post.asset_registry.last_update == pre.timestamp
        &&& post.event_log() == pre.event_log().push(
            (ProtocolEvent::AssetAdded { asset: symbol, symbol, decimals }).publication(),
        )
        &&& (ProtocolState {
            assets: pre.assets,
            asset_registry: pre.asset_registry,
            events: pre.events,
            ..post
        }) == pre
    }

    /// Lists a new asset.
    pub fn add_asset(
        st: &mut ProtocolState,
        caller: String,
        symbol: String,
        decimals: u32,
        oracle_address: String,
        min_collateral_ratio: i128,
    ) -> (r: Result<(), ProtocolError>)
        requires
            old(st).wf(),
        ensures
            final(st).wf(),
            r == (match Self::listing_refusal(*old(st), caller@, symbol@, decimals) {
                Some(e) => Err::<(), ProtocolError>(e),
                None => Ok(()),
            }),
            r is Err ==> *final(st) == *old(st),
            r is Ok ==> Self::listed(
                *old(st),
                *final(st),
                symbol,
                decimals,
                oracle_address,
                min_collateral_ratio,
            ),
    {
        let caller_addr = Address::from_string(&caller);
        ProtocolConfig::require_admin(st, &caller_addr)?;
        if symbol.as_str().is_empty() {
            return Err(ProtocolError::InvalidAsset);
        }
        if decimals == 0 {
            return Err(ProtocolError::InvalidAmount);
        }
        if st.assets.contains_key(&symbol) {
            return Err(ProtocolError::AlreadyInitialized);
        }
        let oracle_addr = Address::from_string(&oracle_address);
        let info = AssetInfo::new(symbol.clone(), decimals, oracle_addr, min_collateral_ratio);
        st.assets.insert(symbol.clone(), info);
        st.asset_registry.supported_assets.push(symbol.clone());
        st.asset_registry.last_update = st.timestamp;
        let event = ProtocolEvent::AssetAdded { asset: symbol.clone(), symbol, decimals };
        event.emit(st);
        Ok(())
    }

    /// Why a change to a listed asset is refused, if it is.
    pub open spec fn asset_change_refusal(st: ProtocolState, caller: Seq<char>, asset: Seq<char>)
        -> Option<ProtocolError> {
        if ProtocolConfig::admin_refusal(st, caller) is Some {
            ProtocolConfig::admin_refusal(st, caller)
        } else if !st.assets@.contains_key(asset) {
            Some(ProtocolError::AssetNotSupported)
        } else {
            None
        }
    }

    /// Changes the minimum ratio, the liquidation limits, the base rate and
    /// the reserve factor of a listed asset.
    pub fn set_asset_params(
        st: &mut ProtocolState,
        caller: String,
        asset: String,
        min_collateral_ratio: i128,
        close_factor: i128,
        liquidation_incentive: i128,
        base_rate: i128,
        reserve_factor: i128,
    ) -> (r: Result<(), ProtocolError>)
        requires
            old(st).wf(),
        ensures
            final(st).wf(),
            r == (match Self::asset_change_refusal(*old(st), caller@, asset@) {
                Some(e) => Err::<(), ProtocolError>(e),
                None => Ok(()),
            }),
            r is Err ==> *final(st) == *old(st),
            r is Ok ==> {
                &&& final(st).assets@ == old(st).assets@.insert(
                    asset@,
                    AssetInfo {
                        min_collateral_ratio,
                        risk_config: RiskConfig {
                            close_factor,
                            liquidation_incentive,
                            ..old(st).assets@[asset@].risk_config
                        },
                        interest_config: InterestRateConfig {
                            base_rate,
                            reserve_factor,
                            ..old(st).assets@[asset@].interest_config
                        },
                        last_update: old(st).timestamp,
                        ..old(st).assets@[asset@]
                    },
                )
                &&& final(st).event_log() == old(st).event_log().push(
                    asset_updated("min_collateral_ratio"@, "old_ratio"@, "new_ratio"@),
                )
                &&& (ProtocolState {
                    assets: old(st).assets,
                    events: old(st).events,
                    ..*final(st)
                }) == *old(st)
            },
    {
        let caller_addr = Address::from_string(&caller);
        ProtocolConfig::require_admin(st, &caller_addr)?;
        let mut info = match st.assets.get(&asset) {
            Some(a) => a.clone(),
            None => { return Err(ProtocolError::AssetNotSupported); },
        };
        info.min_collateral_ratio = min_collateral_ratio;
        info.risk_config.close_factor = close_factor;
        info.risk_config.liquidation_incentive = liquidation_incentive;
        info.interest_config.base_rate = base_rate;
        info.interest_config.reserve_factor = reserve_factor;
        info.last_update = st.timestamp;
        st.assets.insert(asset.clone(), info);
        let event = ProtocolEvent::AssetUpdated {
            asset,
            parameter: text("min_collateral_ratio"),
            old_value: text("old_ratio"),
            new_value: text("new_ratio"),
        };
        event.emit(st);
        Ok(())
    }

    /// Symbol, decimals, price source, minimum ratio and the two switches of
    /// a listed asset.
    pub fn get_asset_info(st: &ProtocolState, asset: String) -> (r: Result<
        (String, u32, String, i128, bool, bool),
        ProtocolError,
    >)
        requires
            st.wf(),
        ensures
            r == (if st.assets@.contains_key(asset@) {
                Ok::<(String, u32, String, i128, bool, bool), ProtocolError>(
                    (
                        st.assets@[asset@].symbol,
                        st.assets@[asset@].decimals,
                        st.assets@[asset@].oracle_address.strkey,
                        st.assets@[asset@].min_collateral_ratio,
                        st.assets@[asset@].deposit_enabled,
                        st.assets@[asset@].borrow_enabled,
                    ),
                )
            } else {
                Err::<(String, u32, String, i128, bool, bool), ProtocolError>(
                    ProtocolError::AssetNotSupported,
                )
            }),
    {
        match st.assets.get(&asset) {
            Some(info) => Ok(
                (
                    info.symbol.clone(),
                    info.decimals,
                    info.oracle_address.to_string(),
                    info.min_collateral_ratio,
                    info.deposit_enabled,
                    info.borrow_enabled,
                ),
            ),
            None => Err(ProtocolError::AssetNotSupported),
        }
    }

    /// The symbols of the supported assets in listing order.
    pub fn get_supported_assets(st: &ProtocolState) -> (r: Vec<String>)
        ensures
            r@ == st.asset_registry.supported_assets@,
    {
        let r = st.asset_registry.supported_assets.clone();
        assert(r@ =~= st.asset_registry.supported_assets@);
        r
    }

    /// Opens or closes a listed asset for deposits.
    pub fn set_asset_deposit_enabled(
        st: &mut ProtocolState,
        caller: String,
        asset: String,
        enabled: bool,
    ) -> (r: Result<(), ProtocolError>)
        requires
            old(st).wf(),
        ensures
            final(st).wf(),
            r == (match Self::asset_change_refusal(*old(st), caller@, asset@) {
                Some(e) => Err::<(), ProtocolError>(e),
                None => Ok(()),
            }),
            r is Err ==> *final(st) == *old(st),
            r is Ok ==> {
                &&& final(st).assets@ == old(st).assets@.insert(
                    asset@,
                    AssetInfo {
                        deposit_enabled: enabled,
                        last_update: old(st).timestamp,
                        ..old(st).assets@[asset@]
                    },
                )
                &&& final(st).event_log() == old(st).event_log().push(
                    asset_switched(switch_word(enabled)@),
                )
                &&& (ProtocolState {
                    assets: old(st).assets,
                    events: old(st).events,
                    ..*final(st)
                }) == *old(st)
            },
    {
        let caller_addr = Address::from_string(&caller);
        ProtocolConfig::require_admin(st, &caller_addr)?;
        let mut info = match st.assets.get(&asset) {
            Some(a) => a.clone(),
            None => { return Err(ProtocolError::AssetNotSupported); },
        };
        info.deposit_enabled = enabled;
        info.last_update = st.timestamp;
        st.assets.insert(asset.clone(), info);
        let reason = if enabled {
            text("enabled")
        } else {
            text("disabled")
        };
        let event = ProtocolEvent::AssetDisabled { asset, reason };
        event.emit(st);
        Ok(())
    }

    /// Opens or closes a listed asset for borrowing.
    pub fn set_asset_borrow_enabled(
        st: &mut ProtocolState,
        caller: String,
        asset: String,
        enabled: bool,
    ) -> (r: Result<(), ProtocolError>)
        requires
            old(st).wf(),
        ensures
            final(st).wf(),
            r == (match Self::asset_change_refusal(*old(st), caller@, asset@) {
                Some(e) => Err::<(), ProtocolError>(e),
                None => Ok(()),
            }),
            r is Err ==> *final(st) == *old(st),
            r is Ok ==> {
                &&& final(st).assets@ == old(st).assets@.insert(
                    asset@,
                    AssetInfo {
                        borrow_enabled: enabled,
                        last_update: old(st).timestamp,
                        ..old(st).assets@[asset@]
                    },
                )
                &&& final(st).event_log() == old(st).event_log().push(
                    asset_switched(switch_word(enabled)@),
                )
                &&& (ProtocolState {
                    assets: old(st).assets,
                    events: old(st).events,
                    ..*final(st)
                }) == *old(st)
            },
    {
        let caller_addr = Address::from_string(&caller);
        ProtocolConfig::require_admin(st, &caller_addr)?;
        let mut info = match st.assets.get(&asset) {
            Some(a) => a.clone(),
            None => { return Err(ProtocolError::AssetNotSupported); },
        };
        info.borrow_enabled = enabled;
        info.last_update = st.timestamp;
        st.assets.insert(asset.clone(), info);
        let reason = if enabled {
            text("enabled")
        } else {
            text("disabled")
        };
        let event = ProtocolEvent::AssetDisabled { asset, reason };
        event.emit(st);
        Ok(())
    }
}

} // verus!
