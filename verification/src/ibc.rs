use vstd::prelude::*;

use crate::ack::{make_ack_fail, make_ack_success, Ack, AckView};
use crate::error::{
    generic_err, generic_err_view, proto_decode_err, proto_decode_err_view, ContractError,
    ContractErrorView, Never, OverflowOperation, StdError, StdErrorView,
};
use crate::msg::CosmosResponsePacket;
use crate::proto::{
    cosmos_response_values, decode_cosmos_response, decode_twap_response, twap_response_text,
};
use crate::state::{
    contract_info_missing, load_contract_info, update_contract_status, with_status, ChannelInfo,
    ContractStore, ContractStoreView, StateStatus,
};
use crate::text::{decimal, parse_u128, parse_uint128, str_eq, u64_to_decimal};
use crate::types::{
    attribute, Attribute, Coin, CoinView, CosmosMsg, CosmosMsgView, IbcBasicResponse,
    IbcBasicResponseView, IbcChannel, IbcOrder, IbcReceiveResponse, Reply, ReplyOn, Response,
    ResponseView, SubMsg, SubMsgView,
};

verus! {

/// The version of the interchain query protocol that both ends must speak.
pub const IBC_VERSION: &'static str = "icq-1";

/// The reply id of the two payout messages.
pub const RECEIVE_ID: u64 = 1337;

/// The scale of the price: it is a decimal fraction with 18 digits.
pub const TWAP_SCALE: u128 = 1_000_000_000_000_000_000;

/// The protocol version, as a value.
pub open spec fn icq_version() -> Seq<char> {
    IBC_VERSION@
}

/// The view of an optional string.
pub open spec fn opt_str_view(o: Option<&str>) -> Option<Seq<char>> {
    match o {
        Some(s) => Some(s@),
        None => None,
    }
}

/// Why a channel is refused, if it is: it must be unordered and speak the
/// protocol version, as must its counterparty where its version is known.
pub open spec fn channel_refusal(
    order: IbcOrder,
    version: Seq<char>,
    counterparty_version: Option<Seq<char>>,
) -> Option<ContractErrorView> {
    if order == IbcOrder::Ordered {
        Some(ContractErrorView::OnlyOrderedChannel)
    } else if version != icq_version() {
        Some(ContractErrorView::InvalidIbcVersion { actual: version, expected: icq_version() })
    } else {
        match counterparty_version {
            Some(v) => if v != icq_version() {
                Some(ContractErrorView::InvalidIbcVersion { actual: v, expected: icq_version() })
            } else {
                None
            },
            None => None,
        }
    }
}

/// Checks that a channel is unordered and speaks the protocol version, and
/// that its counterparty does too where its version is known.
pub fn validate_order_and_version(channel: &IbcChannel, counterparty_version: Option<&str>) -> (r:
    Result<(), ContractError>)
    ensures
        match channel_refusal(channel.order, channel.version@, opt_str_view(counterparty_version)) {
            Some(e) => r matches Err(x) && x@ == e,
            None => r is Ok,
        },
{
    if channel.order != IbcOrder::Unordered {
        return Err(ContractError::OnlyOrderedChannel {  });
    }
    if !str_eq(channel.version.as_str(), IBC_VERSION) {
        return Err(
            ContractError::InvalidIbcVersion {
                actual: channel.version.clone(),
                expected: IBC_VERSION.to_owned(),
            },
        );
    }
    match counterparty_version {
        Some(v) => {
            if !str_eq(v, IBC_VERSION) {
                return Err(
                    ContractError::InvalidIbcVersion {
                        actual: v.to_owned(),
                        expected: IBC_VERSION.to_owned(),
                    },
                );
            }
        },
        None => {},
    }
    Ok(())
}

/// Handles the first two steps of the channel handshake: the channel must
/// pass [`validate_order_and_version`]; no version is proposed back.
pub fn ibc_channel_open(channel: &IbcChannel, counterparty_version: Option<&str>) -> (r: Result<
    (),
    ContractError,
>)
    ensures
        match channel_refusal(channel.order, channel.version@, opt_str_view(counterparty_version)) {
            Some(e) => r matches Err(x) && x@ == e,
            None => r is Ok,
        },
{
    validate_order_and_version(channel, counterparty_version)
}

/// An answer with nothing in it.
pub open spec fn empty_basic_response() -> IbcBasicResponseView {
    IbcBasicResponseView { messages: Seq::empty(), attributes: Seq::empty() }
}

/// The store with `channel` recorded as the contract's channel.
pub open spec fn connected_store(s: ContractStoreView, channel: &IbcChannel) -> ContractStoreView {
    ContractStoreView {
        channel_info: Some(
            crate::state::ChannelInfoView {
                id: channel.endpoint.channel_id@,
                counterparty_endpoint: channel.counterparty_endpoint@,
                connection_id: channel.connection_id@,
            },
        ),
        ..s
    }
}

/// The store without a recorded channel.
pub open spec fn closed_store(s: ContractStoreView) -> ContractStoreView {
    ContractStoreView { channel_info: None, ..s }
}

/// Completes the handshake: the channel must pass the checks, and is then
/// recorded as the contract's channel.
pub fn ibc_channel_connect(
    store: &mut ContractStore,
    channel: IbcChannel,
    counterparty_version: Option<&str>,
) -> (r: Result<IbcBasicResponse, ContractError>)
    ensures
        match channel_refusal(channel.order, channel.version@, opt_str_view(counterparty_version)) {
            Some(e) => (r matches Err(x) && x@ == e) && final(store)@ == old(store)@,
            None => (r matches Ok(resp) && resp@ == empty_basic_response()) && final(store)@
                == connected_store(old(store)@, &channel),
        },
{
    validate_order_and_version(&channel, counterparty_version)?;
    let info = ChannelInfo {
        id: channel.endpoint.channel_id,
        counterparty_endpoint: channel.counterparty_endpoint,
        connection_id: channel.connection_id,
    };
    store.channel_info = Some(info);
    let resp = IbcBasicResponse { messages: Vec::new(), attributes: Vec::new() };
    assert(resp@ =~= empty_basic_response());
    Ok(resp)
}

/// Closes the channel: forgets the recorded channel.
pub fn ibc_channel_close(store: &mut ContractStore, channel: &IbcChannel) -> (r: Result<
    IbcBasicResponse,
    ContractError,
>)
    ensures
        r matches Ok(resp) && resp@ == (IbcBasicResponseView {
            messages: Seq::empty(),
            attributes: seq![
                ("method"@, "ibc_channel_close"@),
                ("channel"@, channel.endpoint.channel_id@),
            ],
        }),
        final(store)@ == closed_store(old(store)@),
{
    let channel_id = channel.endpoint.channel_id.clone();
    store.channel_info = None;
    let mut attributes: Vec<Attribute> = Vec::new();
    attributes.push(attribute("method", "ibc_channel_close".to_owned()));
    attributes.push(attribute("channel", channel_id));
    let resp = IbcBasicResponse { messages: Vec::new(), attributes };
    assert(resp@.attributes =~= seq![
        ("method"@, "ibc_channel_close"@),
        ("channel"@, channel.endpoint.channel_id@),
    ]);
    assert(resp@.messages =~= Seq::empty());
    Ok(resp)
}

/// Acknowledges any packet it receives with success.
pub fn ibc_packet_receive() -> (r: Result<IbcReceiveResponse, Never>)
    ensures
        r matches Ok(resp) && resp.acknowledgement@ == AckView::Result(seq![0x31u8])
            && attributes_are(resp.attributes@, seq![("method"@, "ibc_packet_receive"@)]),
{
    let mut attributes: Vec<Attribute> = Vec::new();
    attributes.push(attribute("method", "ibc_packet_receive".to_owned()));
    let resp = IbcReceiveResponse { acknowledgement: make_ack_success(), attributes };
    assert(crate::types::attributes_view(resp.attributes@) =~= seq![
        ("method"@, "ibc_packet_receive"@),
    ]);
    Ok(resp)
}

/// Whether a list of attributes has the given views.
pub open spec fn attributes_are(
    attrs: Seq<Attribute>,
    views: Seq<(Seq<char>, Seq<char>)>,
) -> bool {
    crate::types::attributes_view(attrs) == views
}

/// Answers a packet's timeout.
pub fn ibc_packet_timeout() -> (r: Result<IbcBasicResponse, ContractError>)
    ensures
        r matches Ok(resp) && resp@ == (IbcBasicResponseView {
            messages: Seq::empty(),
            attributes: seq![("method"@, "ibc_packet_timeout"@)],
        }),
{
    let mut attributes: Vec<Attribute> = Vec::new();
    attributes.push(attribute("method", "ibc_packet_timeout".to_owned()));
    let resp = IbcBasicResponse { messages: Vec::new(), attributes };
    assert(resp@.attributes =~= seq![("method"@, "ibc_packet_timeout"@)]);
    assert(resp@.messages =~= Seq::empty());
    Ok(resp)
}


/// What an answer packet says of the price.
pub enum PriceReading {
    /// The answer is not a well-formed protobuf answer.
    Undecodable,
    /// The answer holds no response.
    NoResponse,
    /// The first response's price is not a decimal amount.
    Unparsable,
    /// The price, scaled by 10^18.
    Price(u128),
}

/// Reads the price from the protobuf answer of the host chain: the text of
/// the first response's `arithmetic_twap`, as a decimal amount.
pub open spec fn read_price(data: Seq<u8>) -> PriceReading {
    match cosmos_response_values(data, 0) {
        None => PriceReading::Undecodable,
        Some(values) => if values.len() == 0 {
            PriceReading::NoResponse
        } else {
            match twap_response_text(values[0], 0, Seq::empty()) {
                None => PriceReading::Undecodable,
                Some(text) => match parse_u128(text) {
                    None => PriceReading::Unparsable,
                    Some(p) => PriceReading::Price(p),
                },
            }
        },
    }
}

/// The amount owed for a fixed amount at a price: their product, scaled
/// down by 10^18 and rounded down; `None` where the product overflows 128 bits.
pub open spec fn required_amount(fixed: u128, twap: u128) -> Option<u128> {
    if fixed * twap <= u128::MAX {
        Some(((fixed * twap) / (TWAP_SCALE as int)) as u128)
    } else {
        None
    }
}

/// The error of an overflowing multiplication.
pub open spec fn mul_overflow_view() -> ContractErrorView {
    ContractErrorView::Std(StdErrorView::Overflow { operation: OverflowOperation::Mul })
}

/// The amount owed for the fixed amount at the given price, in the
/// contract's denomination.
pub fn calculate_required_balance(fixed_amount: &Coin, arithmetic_twap: u128, contract_denom: String) -> (r:
    Result<Coin, ContractError>)
    ensures
        match required_amount(fixed_amount.amount, arithmetic_twap) {
            Some(a) => r matches Ok(c) && c@ == (CoinView { denom: contract_denom@, amount: a }),
            None => r matches Err(e) && e@ == mul_overflow_view(),
        },
{
    let required_amount_in_nano = match fixed_amount.amount.checked_mul(arithmetic_twap) {
        Some(v) => v,
        None => {
            return Err(ContractError::Std(StdError::Overflow { operation: OverflowOperation::Mul }));
        },
    };
    let required_amount = match required_amount_in_nano.checked_div(TWAP_SCALE) {
        Some(v) => v,
        None => {
            return Err(ContractError::Std(StdError::DivideByZero));
        },
    };
    Ok(Coin { amount: required_amount, denom: contract_denom })
}

/// The message of the refusal to subtract coins of different denominations.
pub open spec fn different_denoms_msg() -> Seq<char> {
    "Different denominations. Cannot subtract."@
}

/// The first coin less the second, which must be of the same denomination
/// and, where it is, not larger.
pub fn subtract_coins(coin1: Coin, coin2: Coin) -> (r: Result<Coin, ContractError>)
    requires
        coin1.denom@ == coin2.denom@ ==> coin2.amount <= coin1.amount,
    ensures
        if coin1.denom@ != coin2.denom@ {
            r matches Err(e) && e@ == generic_err_view(different_denoms_msg())
        } else {
            r matches Ok(c) && c@ == (CoinView {
                denom: coin1.denom@,
                amount: (coin1.amount - coin2.amount) as u128,
            })
        },
{
    if coin1.denom != coin2.denom {
        proof {
            reveal_strlit("Different denominations. Cannot subtract.");
        }
        return Err(generic_err("Different denominations. Cannot subtract."));
    }
    let result_amount = coin1.amount - coin2.amount;
    Ok(Coin { denom: coin1.denom, amount: result_amount })
}

/// The view of the outcome of reading the amount owed.
pub open spec fn coin_outcome_view(r: Option<Result<Coin, ContractError>>) -> Option<
    Result<CoinView, ContractErrorView>,
> {
    match r {
        None => None,
        Some(Ok(c)) => Some(Ok(c@)),
        Some(Err(e)) => Some(Err(e@)),
    }
}

/// The view of an answer packet's bytes or the error of reading it.
pub open spec fn bytes_result_view(r: Result<CosmosResponsePacket, StdError>) -> Result<
    Seq<u8>,
    StdErrorView,
> {
    match r {
        Ok(p) => Ok(p.data@),
        Err(e) => Err(e@),
    }
}

/// The store and outcome of the first step after a successful answer: with a
/// contract record, its status becomes `Processing`; then the answer's
/// price gives the amount owed. `None` stands for an answer that holds no
/// response.
pub open spec fn packet_success_spec(
    s: ContractStoreView,
    packet: Result<Seq<u8>, StdErrorView>,
) -> (ContractStoreView, Option<Result<CoinView, ContractErrorView>>) {
    match s.contract_info {
        None => (s, Some(Err(contract_info_missing()))),
        Some(ci) => (
            with_status(s, StateStatus::Processing),
            match packet {
                Err(e) => Some(Err(ContractErrorView::Std(e))),
                Ok(data) => match read_price(data) {
                    PriceReading::Undecodable => Some(Err(proto_decode_err_view())),
                    PriceReading::NoResponse => None,
                    PriceReading::Unparsable => Some(Err(ContractErrorView::ParseError)),
                    PriceReading::Price(p) => match required_amount(ci.fixed_amount.amount, p) {
                        Some(a) => Some(Ok(CoinView { denom: ci.contract_denom, amount: a })),
                        None => Some(Err(mul_overflow_view())),
                    },
                },
            },
        ),
    }
}

/// The first step after a successful answer: marks the payout as
/// processing, reads the price from the answer (the `data` of the JSON
/// packet inside the acknowledgement, or the error of reading it) and
/// computes the amount owed. `None` where the answer holds no response.
pub fn on_packet_success(
    store: &mut ContractStore,
    response_packet: Result<CosmosResponsePacket, StdError>,
) -> (r: Option<Result<Coin, ContractError>>)
    ensures
        (final(store)@, coin_outcome_view(r)) == packet_success_spec(
            old(store)@,
            bytes_result_view(response_packet),
        ),
{
    match update_contract_status(store, StateStatus::Processing) {
        Ok(()) => {},
        Err(e) => {
            return Some(Err(e));
        },
    }
    let data = match response_packet {
        Ok(packet) => packet.data,
        Err(e) => {
            return Some(Err(ContractError::Std(e)));
        },
    };
    let values = match decode_cosmos_response(data.as_slice()) {
        Some(v) => v,
        None => {
            return Some(Err(proto_decode_err()));
        },
    };
    if values.len() == 0 {
        return None;
    }
    let price_response = match decode_twap_response(values[0].as_slice()) {
        Some(t) => t,
        None => {
            return Some(Err(proto_decode_err()));
        },
    };
    let arithmetic_twap = match parse_uint128(price_response.arithmetic_twap.as_str()) {
        Some(p) => p,
        None => {
            return Some(Err(ContractError::ParseError {  }));
        },
    };
    let contract_info = match load_contract_info(store) {
        Ok(ci) => ci,
        Err(e) => {
            return Some(Err(e));
        },
    };
    Some(
        calculate_required_balance(
            &contract_info.fixed_amount,
            arithmetic_twap,
            contract_info.contract_denom,
        ),
    )
}

/// The answer that pays `required` to the owner and `remain` to the
/// community pool, each with a reply on success.
pub open spec fn payout_response(
    owner: Seq<char>,
    required: CoinView,
    remain: CoinView,
    sequence: u64,
) -> IbcBasicResponseView {
    IbcBasicResponseView {
        messages: seq![
            SubMsgView {
                id: RECEIVE_ID,
                msg: CosmosMsgView::BankSend { to_address: owner, amount: seq![required] },
                reply_on: ReplyOn::Success,
            },
            SubMsgView {
                id: RECEIVE_ID,
                msg: CosmosMsgView::FundCommunityPool { amount: seq![remain] },
                reply_on: ReplyOn::Success,
            },
        ],
        attributes: seq![("method"@, "ibc_packet_ack"@), ("sequence"@, decimal(sequence as nat))],
    }
}

/// The second step after a successful answer: given the amount owed and the
/// contract's balance, pays the owner what is owed and gives the rest of the
/// balance to the community pool; marks the payout as failed where the
/// balance falls short.
pub fn pay_out(
    store: &mut ContractStore,
    required: Coin,
    contract_balance: Coin,
    sequence: u64,
) -> (r: Result<IbcBasicResponse, ContractError>)
    ensures
        match old(store)@.contract_info {
            None => final(store)@ == old(store)@ && (r matches Err(e) && e@
                == contract_info_missing()),
            Some(ci) => if contract_balance.amount < required.amount {
                final(store)@ == with_status(old(store)@, StateStatus::Failed) && (r matches Err(
                    e,
                ) && e@ == ContractErrorView::NoEnoughTokens)
            } else if contract_balance.denom@ != required.denom@ {
                final(store)@ == old(store)@ && (r matches Err(e) && e@ == generic_err_view(
                    different_denoms_msg(),
                ))
            } else {
                final(store)@ == old(store)@ && (r matches Ok(resp) && resp@ == payout_response(
                    ci.owner_address,
                    required@,
                    CoinView {
                        denom: contract_balance.denom@,
                        amount: (contract_balance.amount - required.amount) as u128,
                    },
                    sequence,
                ))
            },
        },
{
    let contract_info = load_contract_info(store)?;
    if contract_balance.amount < required.amount {
        update_contract_status(store, StateStatus::Failed)?;
        return Err(ContractError::NoEnoughTokens {  });
    }
    let ghost req = required@;
    let mut to_owner: Vec<Coin> = Vec::new();
    to_owner.push(required.duplicate());
    assert(crate::types::coins_view(to_owner@) =~= seq![req]);
    let send_tokens_to_contract_owner_msg = CosmosMsg::BankSend {
        to_address: contract_info.owner_address,
        amount: to_owner,
    };
    let remain_balance = subtract_coins(contract_balance, required)?;
    let ghost rem = remain_balance@;
    let mut to_pool: Vec<Coin> = Vec::new();
    to_pool.push(remain_balance);
    assert(crate::types::coins_view(to_pool@) =~= seq![rem]);
    let send_tokens_to_community_pool_msg = CosmosMsg::FundCommunityPool { amount: to_pool };
    let mut messages: Vec<SubMsg> = Vec::new();
    messages.push(
        SubMsg {
            id: RECEIVE_ID,
            msg: send_tokens_to_contract_owner_msg,
            reply_on: ReplyOn::Success,
        },
    );
    messages.push(
        SubMsg {
            id: RECEIVE_ID,
            msg: send_tokens_to_community_pool_msg,
            reply_on: ReplyOn::Success,
        },
    );
    let mut attributes: Vec<Attribute> = Vec::new();
    attributes.push(attribute("method", "ibc_packet_ack".to_owned()));
    attributes.push(attribute("sequence", u64_to_decimal(sequence)));
    let resp = IbcBasicResponse { messages, attributes };
    proof {
        let ci = old(store)@.contract_info.unwrap();
        let expected = payout_response(ci.owner_address, req, rem, sequence);
        assert(resp@.attributes =~= expected.attributes);
        assert(resp@.messages[0] == expected.messages[0]);
        assert(resp@.messages[1] == expected.messages[1]);
        assert(resp@.messages =~= expected.messages);
    }
    Ok(resp)
}


/// Where an acknowledgement leaves the contract.
pub enum PacketAckStep {
    /// Done, with this answer.
    Finished(IbcBasicResponse),
    /// The price arrived and this amount is owed; the payout needs the
    /// contract's balance in the contract's denomination (see [`pay_out`]).
    AwaitBalance(Coin),
}

/// The mathematical value of a [`PacketAckStep`].
pub enum PacketAckStepView {
    Finished(IbcBasicResponseView),
    AwaitBalance(CoinView),
}

impl View for PacketAckStep {
    type V = PacketAckStepView;

    open spec fn view(&self) -> PacketAckStepView {
        match self {
            PacketAckStep::Finished(resp) => PacketAckStepView::Finished(resp@),
            PacketAckStep::AwaitBalance(c) => PacketAckStepView::AwaitBalance(c@),
        }
    }
}

/// The view of the outcome of an acknowledgement.
pub open spec fn ack_outcome_view(r: Option<Result<PacketAckStep, ContractError>>) -> Option<
    Result<PacketAckStepView, ContractErrorView>,
> {
    match r {
        None => None,
        Some(Ok(step)) => Some(Ok(step@)),
        Some(Err(e)) => Some(Err(e@)),
    }
}

/// The view of an acknowledgement or the error of reading it.
pub open spec fn ack_result_view(r: Result<Ack, StdError>) -> Result<AckView, StdErrorView> {
    match r {
        Ok(a) => Ok(a@),
        Err(e) => Err(e@),
    }
}

/// The answer to an acknowledgement that reports an error.
pub open spec fn error_ack_response(error: Seq<char>, sequence: u64) -> IbcBasicResponseView {
    IbcBasicResponseView {
        messages: Seq::empty(),
        attributes: seq![
            ("method"@, "ibc_packet_ack"@),
            ("error"@, error),
            ("sequence"@, decimal(sequence as nat)),
        ],
    }
}

/// The store and outcome of an acknowledgement: an error acknowledgement
/// marks the payout as failed; a result goes on as [`packet_success_spec`]
/// says.
pub open spec fn packet_ack_spec(
    s: ContractStoreView,
    ack: Result<AckView, StdErrorView>,
    packet: Result<Seq<u8>, StdErrorView>,
    sequence: u64,
) -> (ContractStoreView, Option<Result<PacketAckStepView, ContractErrorView>>) {
    match ack {
        Err(e) => (s, Some(Err(ContractErrorView::Std(e)))),
        Ok(AckView::Error(error)) => match s.contract_info {
            None => (s, Some(Err(contract_info_missing()))),
            Some(_) => (
                with_status(s, StateStatus::Failed),
                Some(Ok(PacketAckStepView::Finished(error_ack_response(error, sequence)))),
            ),
        },
        Ok(AckView::Result(_)) => {
            let (s2, out) = packet_success_spec(s, packet);
            (
                s2,
                match out {
                    None => None,
                    Some(Ok(c)) => Some(Ok(PacketAckStepView::AwaitBalance(c))),
                    Some(Err(e)) => Some(Err(e)),
                },
            )
        },
    }
}

/// Handles the acknowledgement of the query packet: the acknowledgement
/// itself (or the error of reading it), and the answer packet's `data`
/// inside it (or the error of reading that). `None` where the answer holds
/// no response.
pub fn ibc_packet_ack(
    store: &mut ContractStore,
    ack: Result<Ack, StdError>,
    response_packet: Result<CosmosResponsePacket, StdError>,
    sequence: u64,
) -> (r: Option<Result<PacketAckStep, ContractError>>)
    ensures
        (final(store)@, ack_outcome_view(r)) == packet_ack_spec(
            old(store)@,
            ack_result_view(ack),
            bytes_result_view(response_packet),
            sequence,
        ),
{
    let icq_msg = match ack {
        Ok(a) => a,
        Err(e) => {
            return Some(Err(ContractError::Std(e)));
        },
    };
    match icq_msg {
        Ack::Result(_) => match on_packet_success(store, response_packet) {
            None => None,
            Some(Ok(required)) => Some(Ok(PacketAckStep::AwaitBalance(required))),
            Some(Err(e)) => Some(Err(e)),
        },
        Ack::Error(error) => {
            match update_contract_status(store, StateStatus::Failed) {
                Ok(()) => {},
                Err(e) => {
                    return Some(Err(e));
                },
            }
            let ghost err = error@;
            let mut attributes: Vec<Attribute> = Vec::new();
            attributes.push(attribute("method", "ibc_packet_ack".to_owned()));
            attributes.push(attribute("error", error));
            attributes.push(attribute("sequence", u64_to_decimal(sequence)));
            let resp = IbcBasicResponse { messages: Vec::new(), attributes };
            assert(resp@ =~= error_ack_response(err, sequence));
            Some(Ok(PacketAckStep::Finished(resp)))
        },
    }
}

/// The store and outcome of a status change that answers with `resp`: it
/// needs the contract record.
pub open spec fn status_reply_outcome(
    s: ContractStoreView,
    status: StateStatus,
    resp: ResponseView,
    s2: ContractStoreView,
    r: Result<Response, ContractError>,
) -> bool {
    match s.contract_info {
        None => s2 == s && (r matches Err(e) && e@ == contract_info_missing()),
        Some(_) => s2 == with_status(s, status) && (r matches Ok(x) && x@ == resp),
    }
}

/// Handles the chain's report on a payout message: success marks the payout
/// as paid; failure marks it as failed and answers with an error
/// acknowledgement carrying the failure's message.
pub fn reply(store: &mut ContractStore, report: &Reply) -> (r: Result<Response, ContractError>)
    ensures
        if report.id != RECEIVE_ID {
            final(store)@ == old(store)@ && (r matches Err(e) && e@
                == ContractErrorView::UnknownReplyId { id: report.id })
        } else {
            match report.result {
                Ok(()) => status_reply_outcome(
                    old(store)@,
                    StateStatus::Paid,
                    ResponseView {
                        messages: Seq::empty(),
                        attributes: seq![("method"@, "contract_paid"@)],
                        data: None,
                    },
                    final(store)@,
                    r,
                ),
                Err(msg) => status_reply_outcome(
                    old(store)@,
                    StateStatus::Failed,
                    ResponseView {
                        messages: Seq::empty(),
                        attributes: Seq::empty(),
                        data: Some(AckView::Error(msg@)),
                    },
                    final(store)@,
                    r,
                ),
            }
        },
{
    if report.id != RECEIVE_ID {
        return Err(ContractError::UnknownReplyId { id: report.id });
    }
    match &report.result {
        Ok(()) => {
            update_contract_status(store, StateStatus::Paid)?;
            let mut attributes: Vec<Attribute> = Vec::new();
            attributes.push(attribute("method", "contract_paid".to_owned()));
            let resp = Response { messages: Vec::new(), attributes, data: None };
            assert(resp@.attributes =~= seq![("method"@, "contract_paid"@)]);
            assert(resp@.messages =~= Seq::empty());
            Ok(resp)
        },
        Err(err) => {
            update_contract_status(store, StateStatus::Failed)?;
            let resp = Response {
                messages: Vec::new(),
                attributes: Vec::new(),
                data: Some(make_ack_fail(err.clone())),
            };
            assert(resp@.attributes =~= Seq::empty());
            assert(resp@.messages =~= Seq::empty());
            Ok(resp)
        },
    }
}

} // verus!
