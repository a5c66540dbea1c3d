use vstd::prelude::*;

use crate::error::{not_found, ContractError, ContractErrorView, StdErrorView};
use crate::msg::{TwapSettings, TwapSettingsView};
use crate::types::{Coin, CoinView, IbcEndpoint, IbcEndpointView};

verus! {

/// Static facts about the one channel the contract talks on.
#[derive(Clone, Debug, PartialEq, Eq)]
pub struct ChannelInfo {
    /// id of this channel
    pub id: String,
    /// the remote channel/port we connect to
    pub counterparty_endpoint: IbcEndpoint,
    /// the connection this exists on (you can use to query client/consensus info)
    pub connection_id: String,
}

/// The mathematical value of a [`ChannelInfo`].
#[verifier::ext_equal]
pub struct ChannelInfoView {
    pub id: Seq<char>,
    pub counterparty_endpoint: IbcEndpointView,
    pub connection_id: Seq<char>,
}

impl View for ChannelInfo {
    type V = ChannelInfoView;

    open spec fn view(&self) -> ChannelInfoView {
        ChannelInfoView {
            id: self.id@,
            counterparty_endpoint: self.counterparty_endpoint@,
            connection_id: self.connection_id@,
        }
    }
}

/// Where the payout stands.
#[derive(Clone, Copy, Debug, PartialEq, Eq, Structural)]
pub enum StateStatus {
    Initialized,
    Requested,
    Processing,
    Paid,
    Failed,
}

/// The contract's record: who is paid, how much, in which tokens, and where
/// the payout stands.
#[derive(Clone, Debug, PartialEq, Eq)]
pub struct ContractInfo {
    pub owner_address: String,
    pub community_pool_address: String,
    pub fixed_amount: Coin,
    pub contract_denom: String,
    pub state: StateStatus,
}

/// The mathematical value of a [`ContractInfo`].
#[verifier::ext_equal]
pub struct ContractInfoView {
    pub owner_address: Seq<char>,
    pub community_pool_address: Seq<char>,
    pub fixed_amount: CoinView,
    pub contract_denom: Seq<char>,
    pub state: StateStatus,
}

impl View for ContractInfo {
    type V = ContractInfoView;

    open spec fn view(&self) -> ContractInfoView {
        ContractInfoView {
            owner_address: self.owner_address@,
            community_pool_address: self.community_pool_address@,
            fixed_amount: self.fixed_amount@,
            contract_denom: self.contract_denom@,
            state: self.state,
        }
    }
}

impl ContractInfo {
    /// A copy of the record.
    pub fn duplicate(&self) -> (r: ContractInfo)
        ensures
            r@ == self@,
    {
        ContractInfo {
            owner_address: self.owner_address.clone(),
            community_pool_address: self.community_pool_address.clone(),
            fixed_amount: self.fixed_amount.duplicate(),
            contract_denom: self.contract_denom.clone(),
            state: self.state,
        }
    }
}

/// The name and version of the code that created the contract.
#[derive(Clone, Debug, PartialEq, Eq)]
pub struct ContractVersion {
    pub contract: String,
    pub version: String,
}

/// What the contract keeps in chain storage; each item may be missing.
#[derive(Clone, Debug, PartialEq, Eq)]
pub struct ContractStore {
    pub contract_info: Option<ContractInfo>,
    pub twap_settings: Option<TwapSettings>,
    pub channel_info: Option<ChannelInfo>,
    pub contract_version: Option<ContractVersion>,
}

/// The mathematical value of a [`ContractStore`].
#[verifier::ext_equal]
pub struct ContractStoreView {
    pub contract_info: Option<ContractInfoView>,
    pub twap_settings: Option<TwapSettingsView>,
    pub channel_info: Option<ChannelInfoView>,
    pub contract_version: Option<(Seq<char>, Seq<char>)>,
}

impl View for ContractStore {
    type V = ContractStoreView;

    open spec fn view(&self) -> ContractStoreView {
        ContractStoreView {
            contract_info: match self.contract_info {
                Some(c) => Some(c@),
                None => None,
            },
            twap_settings: match self.twap_settings {
                Some(t) => Some(t@),
                None => None,
            },
            channel_info: match self.channel_info {
                Some(c) => Some(c@),
                None => None,
            },
            contract_version: match self.contract_version {
                Some(v) => Some((v.contract@, v.version@)),
                None => None,
            },
        }
    }
}

impl ContractStore {
    /// A store with nothing in it.
    pub fn empty() -> (s: ContractStore)
        ensures
            s@ == empty_store_view(),
    {
        ContractStore {
            contract_info: None,
            twap_settings: None,
            channel_info: None,
            contract_version: None,
        }
    }
}

/// The view of a store with nothing in it.
pub open spec fn empty_store_view() -> ContractStoreView {
    ContractStoreView {
        contract_info: None,
        twap_settings: None,
        channel_info: None,
        contract_version: None,
    }
}

/// The type name that a missing contract record is reported under.
pub open spec fn contract_info_kind() -> Seq<char> {
    "muffin::state::ContractInfo"@
}

/// The type name that missing price settings are reported under.
pub open spec fn twap_settings_kind() -> Seq<char> {
    "muffin::msg::TwapSettings"@
}

/// The error that reading the missing contract record gives.
pub open spec fn contract_info_missing() -> ContractErrorView {
    ContractErrorView::Std(StdErrorView::NotFound { kind: contract_info_kind() })
}

/// The error that reading missing price settings gives.
pub open spec fn twap_settings_missing() -> ContractErrorView {
    ContractErrorView::Std(StdErrorView::NotFound { kind: twap_settings_kind() })
}

/// The store with the contract record's status set to `status`; the store
/// itself where there is no record.
pub open spec fn with_status(s: ContractStoreView, status: StateStatus) -> ContractStoreView {
    match s.contract_info {
        Some(ci) => ContractStoreView {
            contract_info: Some(ContractInfoView { state: status, ..ci }),
            ..s
        },
        None => s,
    }
}

/// Reads the contract record.
pub fn load_contract_info(store: &ContractStore) -> (r: Result<ContractInfo, ContractError>)
    ensures
        match store@.contract_info {
            Some(ci) => r matches Ok(c) && c@ == ci,
            None => r matches Err(e) && e@ == contract_info_missing(),
        },
{
    match &store.contract_info {
        Some(ci) => Ok(ci.duplicate()),
        None => {
            proof {
                reveal_strlit("muffin::state::ContractInfo");
            }
            Err(ContractError::Std(not_found("muffin::state::ContractInfo")))
        },
    }
}

/// Reads the price settings.
pub fn load_twap_settings(store: &ContractStore) -> (r: Result<TwapSettings, ContractError>)
    ensures
        match store@.twap_settings {
            Some(t) => r matches Ok(v) && v@ == t,
            None => r matches Err(e) && e@ == twap_settings_missing(),
        },
{
    match &store.twap_settings {
        Some(t) => Ok(t.duplicate()),
        None => {
            proof {
                reveal_strlit("muffin::msg::TwapSettings");
            }
            Err(ContractError::Std(not_found("muffin::msg::TwapSettings")))
        },
    }
}

/// Sets the status in the contract record, which must exist; nothing else
/// in the store changes.
pub fn update_contract_status(store: &mut ContractStore, new_status: StateStatus) -> (r: Result<
    (),
    ContractError,
>)
    ensures
        match old(store)@.contract_info {
            Some(_) => r is Ok && final(store)@ == with_status(old(store)@, new_status),
            None => r matches Err(e) && e@ == contract_info_missing() && final(store)@ == old(
                store,
            )@,
        },
{
    let mut contract_info = load_contract_info(store)?;
    contract_info.state = new_status;
    store.contract_info = Some(contract_info);
    Ok(())
}

} // verus!
