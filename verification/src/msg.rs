use vstd::prelude::*;

use crate::types::Coin;

verus! {

/// The message that creates the contract.
#[derive(Clone, Debug, PartialEq, Eq)]
pub struct InstantiateMsg {
    pub fixed_amount: Coin,
    pub owner_address: String,
    pub contract_denom: String,
    pub twap_request_info: TwapSettings,
}

/// Which pool and which pair of assets the price is asked of.
#[derive(Clone, Debug, PartialEq, Eq)]
pub struct TwapSettings {
    pub pool_id: u64,
    pub base_asset: String,
    pub quote_asset: String,
}

/// The mathematical value of [`TwapSettings`].
#[verifier::ext_equal]
pub struct TwapSettingsView {
    pub pool_id: u64,
    pub base_asset: Seq<char>,
    pub quote_asset: Seq<char>,
}

impl View for TwapSettings {
    type V = TwapSettingsView;

    open spec fn view(&self) -> TwapSettingsView {
        TwapSettingsView {
            pool_id: self.pool_id,
            base_asset: self.base_asset@,
            quote_asset: self.quote_asset@,
        }
    }
}

impl TwapSettings {
    /// A copy of the settings.
    pub fn duplicate(&self) -> (r: TwapSettings)
        ensures
            r@ == self@,
    {
        TwapSettings {
            pool_id: self.pool_id,
            base_asset: self.base_asset.clone(),
            quote_asset: self.quote_asset.clone(),
        }
    }
}

/// The messages that change the contract.
#[derive(Clone, Copy, Debug, PartialEq, Eq)]
pub enum ExecuteMsg {
    ClaimProposalAmount {},
}

/// The questions the contract answers.
#[derive(Clone, Copy, Debug, PartialEq, Eq)]
pub enum QueryMsg {
    ContractInfo {},
}

/// The packet of an interchain query: the encoded query and a note.
#[derive(Clone, Debug, PartialEq, Eq)]
pub struct InterchainQueryPacketData {
    pub data: Vec<u8>,
    pub memo: String,
}

/// The mathematical value of [`InterchainQueryPacketData`].
#[verifier::ext_equal]
pub struct InterchainQueryPacketDataView {
    pub data: Seq<u8>,
    pub memo: Seq<char>,
}

impl View for InterchainQueryPacketData {
    type V = InterchainQueryPacketDataView;

    open spec fn view(&self) -> InterchainQueryPacketDataView {
        InterchainQueryPacketDataView { data: self.data@, memo: self.memo@ }
    }
}

/// An ABCI query of the host chain, as a list of them travels in a
/// [`CosmosQuery`].
#[derive(Clone, Debug, PartialEq, Eq)]
pub struct AbciQueryRequest {
    pub data: Vec<u8>,
    pub path: String,
    pub height: i64,
    pub prove: bool,
}

/// A list of ABCI queries, sent to a host chain in one packet.
#[derive(Clone, Debug, PartialEq, Eq)]
pub struct CosmosQuery {
    pub requests: Vec<AbciQueryRequest>,
}

/// The acknowledgement of an interchain query: the answer, JSON-encoded.
#[derive(Clone, Debug, PartialEq, Eq)]
pub struct InterchainQueryPacketAck {
    pub result: Vec<u8>,
}

/// The answer of a host chain to a [`CosmosQuery`]: its protobuf encoding.
#[derive(Clone, Debug, PartialEq, Eq)]
pub struct CosmosResponsePacket {
    pub data: Vec<u8>,
}

/// The question for an arithmetic time-weighted average price up to now.
#[derive(Clone, Debug, PartialEq, Eq)]
pub struct ArithmeticTwapToNowRequest {
    pub pool_id: u64,
    pub base_asset: String,
    pub quote_asset: String,
    pub start_time: Option<Timestamp>,
}

/// A point in time: seconds since the Unix epoch and a non-negative
/// fraction of a second in nanoseconds.
#[derive(Clone, Copy, Debug, PartialEq, Eq, Structural)]
pub struct Timestamp {
    /// Represents seconds of UTC time since Unix epoch
    /// 1970-01-01T00:00:00Z. Must be from 0001-01-01T00:00:00Z to
    /// 9999-12-31T23:59:59Z inclusive.
    pub seconds: i64,
    /// Non-negative fractions of a second at nanosecond resolution. Negative
    /// second values with fractions must still have non-negative nanos values
    /// that count forward in time. Must be from 0 to 999,999,999
    /// inclusive.
    pub nanos: i32,
}

/// The answer to an [`ArithmeticTwapToNowRequest`]: the price as a decimal
/// string, scaled by 10^18.
#[derive(Clone, Debug, PartialEq, Eq)]
pub struct ArithmeticTwapToNowResponse {
    pub arithmetic_twap: String,
}

} // verus!
