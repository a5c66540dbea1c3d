use vstd::prelude::*;

use crate::ack::{Ack, AckView};
use crate::msg::{InterchainQueryPacketData, InterchainQueryPacketDataView};

verus! {

/// An amount of one denomination of tokens.
#[derive(Clone, Debug, PartialEq, Eq)]
pub struct Coin {
    pub denom: String,
    pub amount: u128,
}

/// The mathematical value of a [`Coin`].
#[verifier::ext_equal]
pub struct CoinView {
    pub denom: Seq<char>,
    pub amount: u128,
}

impl View for Coin {
    type V = CoinView;

    open spec fn view(&self) -> CoinView {
        CoinView { denom: self.denom@, amount: self.amount }
    }
}

impl Coin {
    /// A copy of the coin.
    pub fn duplicate(&self) -> (r: Coin)
        ensures
            r@ == self@,
    {
        Coin { denom: self.denom.clone(), amount: self.amount }
    }
}

/// The views of a list of coins.
pub open spec fn coins_view(coins: Seq<Coin>) -> Seq<CoinView> {
    coins.map_values(|c: Coin| c@)
}

/// What the contract knows of the block and of itself when it runs.
#[derive(Clone, Debug, PartialEq, Eq)]
pub struct Env {
    /// The block time, in nanoseconds since the Unix epoch.
    pub block_time_nanos: u64,
    /// The contract's own address.
    pub contract_address: String,
}

/// One end of an IBC channel.
#[derive(Clone, Debug, PartialEq, Eq)]
pub struct IbcEndpoint {
    pub port_id: String,
    pub channel_id: String,
}

/// The mathematical value of an [`IbcEndpoint`].
#[verifier::ext_equal]
pub struct IbcEndpointView {
    pub port_id: Seq<char>,
    pub channel_id: Seq<char>,
}

impl View for IbcEndpoint {
    type V = IbcEndpointView;

    open spec fn view(&self) -> IbcEndpointView {
        IbcEndpointView { port_id: self.port_id@, channel_id: self.channel_id@ }
    }
}

/// Whether an IBC channel delivers packets in order.
#[derive(Clone, Copy, Debug, PartialEq, Eq, Structural)]
pub enum IbcOrder {
    Unordered,
    Ordered,
}

/// An IBC channel, as the handshake presents it.
#[derive(Clone, Debug, PartialEq, Eq)]
pub struct IbcChannel {
    pub endpoint: IbcEndpoint,
    pub counterparty_endpoint: IbcEndpoint,
    pub order: IbcOrder,
    pub version: String,
    pub connection_id: String,
}

/// A key and a value, as an event of the chain carries them.
#[derive(Clone, Debug, PartialEq, Eq)]
pub struct Attribute {
    pub key: String,
    pub value: String,
}

impl View for Attribute {
    type V = (Seq<char>, Seq<char>);

    open spec fn view(&self) -> (Seq<char>, Seq<char>) {
        (self.key@, self.value@)
    }
}

/// The views of a list of attributes.
pub open spec fn attributes_view(attrs: Seq<Attribute>) -> Seq<(Seq<char>, Seq<char>)> {
    attrs.map_values(|a: Attribute| a@)
}

/// An attribute with the given key and value.
pub fn attribute(key: &str, value: String) -> (a: Attribute)
    ensures
        a@ == (key@, value@),
{
    Attribute { key: key.to_owned(), value }
}

/// A message that the contract asks the chain to run.
#[derive(Clone, Debug, PartialEq, Eq)]
pub enum CosmosMsg {
    /// Send tokens to an address.
    BankSend { to_address: String, amount: Vec<Coin> },
    /// Give tokens to the community pool.
    FundCommunityPool { amount: Vec<Coin> },
    /// Send a packet on an IBC channel; `timeout_nanos` is a time in
    /// nanoseconds since the Unix epoch.
    IbcSendPacket { channel_id: String, data: InterchainQueryPacketData, timeout_nanos: u64 },
}

/// The mathematical value of a [`CosmosMsg`].
#[verifier::ext_equal]
pub enum CosmosMsgView {
    BankSend { to_address: Seq<char>, amount: Seq<CoinView> },
    FundCommunityPool { amount: Seq<CoinView> },
    IbcSendPacket {
        channel_id: Seq<char>,
        data: InterchainQueryPacketDataView,
        timeout_nanos: u64,
    },
}

impl View for CosmosMsg {
    type V = CosmosMsgView;

    open spec fn view(&self) -> CosmosMsgView {
        match self {
            CosmosMsg::BankSend { to_address, amount } => CosmosMsgView::BankSend {
                to_address: to_address@,
                amount: coins_view(amount@),
            },
            CosmosMsg::FundCommunityPool { amount } => CosmosMsgView::FundCommunityPool {
                amount: coins_view(amount@),
            },
            CosmosMsg::IbcSendPacket { channel_id, data, timeout_nanos } =>
                CosmosMsgView::IbcSendPacket {
                channel_id: channel_id@,
                data: data@,
                timeout_nanos: *timeout_nanos,
            },
        }
    }
}

/// When the contract wants to hear back about a message it sent.
#[derive(Clone, Copy, Debug, PartialEq, Eq, Structural)]
pub enum ReplyOn {
    Always,
    Error,
    Success,
    Never,
}

/// A message with the reply that the contract asks for it.
#[derive(Clone, Debug, PartialEq, Eq)]
pub struct SubMsg {
    pub id: u64,
    pub msg: CosmosMsg,
    pub reply_on: ReplyOn,
}

/// The mathematical value of a [`SubMsg`].
#[verifier::ext_equal]
pub struct SubMsgView {
    pub id: u64,
    pub msg: CosmosMsgView,
    pub reply_on: ReplyOn,
}

impl View for SubMsg {
    type V = SubMsgView;

    open spec fn view(&self) -> SubMsgView {
        SubMsgView { id: self.id, msg: self.msg@, reply_on: self.reply_on }
    }
}

/// The views of a list of messages.
pub open spec fn submsgs_view(msgs: Seq<SubMsg>) -> Seq<SubMsgView> {
    msgs.map_values(|m: SubMsg| m@)
}

/// The answer of an execute, instantiate or reply call.
#[derive(Clone, Debug, PartialEq, Eq)]
pub struct Response {
    pub messages: Vec<SubMsg>,
    pub attributes: Vec<Attribute>,
    pub data: Option<Ack>,
}

/// The mathematical value of a [`Response`].
#[verifier::ext_equal]
pub struct ResponseView {
    pub messages: Seq<SubMsgView>,
    pub attributes: Seq<(Seq<char>, Seq<char>)>,
    pub data: Option<AckView>,
}

impl View for Response {
    type V = ResponseView;

    open spec fn view(&self) -> ResponseView {
        ResponseView {
            messages: submsgs_view(self.messages@),
            attributes: attributes_view(self.attributes@),
            data: match self.data {
                Some(a) => Some(a@),
                None => None,
            },
        }
    }
}

/// The answer of an IBC channel or packet call.
#[derive(Clone, Debug, PartialEq, Eq)]
pub struct IbcBasicResponse {
    pub messages: Vec<SubMsg>,
    pub attributes: Vec<Attribute>,
}

/// The mathematical value of an [`IbcBasicResponse`].
#[verifier::ext_equal]
pub struct IbcBasicResponseView {
    pub messages: Seq<SubMsgView>,
    pub attributes: Seq<(Seq<char>, Seq<char>)>,
}

impl View for IbcBasicResponse {
    type V = IbcBasicResponseView;

    open spec fn view(&self) -> IbcBasicResponseView {
        IbcBasicResponseView {
            messages: submsgs_view(self.messages@),
            attributes: attributes_view(self.attributes@),
        }
    }
}

/// The answer to a received packet: the acknowledgement and attributes.
#[derive(Clone, Debug, PartialEq, Eq)]
pub struct IbcReceiveResponse {
    pub acknowledgement: Ack,
    pub attributes: Vec<Attribute>,
}

/// The chain's report on a message the contract sent.
#[derive(Debug, PartialEq, Eq)]
pub struct Reply {
    pub id: u64,
    /// Success, or the failure's message.
    pub result: Result<(), String>,
}

} // verus!
