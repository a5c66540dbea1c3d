//! Properties of the contract that span its functions.
use vstd::prelude::*;
use vstd::utf8::{encode_utf8, encode_utf8_decode_utf8, encode_utf8_valid_utf8};

use crate::contract::{
    claim_outcome, initial_contract_info, instantiated_store, no_channel_msg, query_answer,
    query_outcome, query_time_ok, twap_query_packet,
};
use crate::error::{generic_err_view, ContractErrorView};
use crate::ibc::{
    channel_refusal, closed_store, connected_store, IBC_VERSION, mul_overflow_view, packet_success_spec, payout_response,
    read_price, required_amount, PriceReading,
};
use crate::msg::InstantiateMsg;
use crate::state::{ContractInfoView, ContractStoreView, StateStatus, with_status};
use crate::types::{
    Coin, CoinView, CosmosMsgView, Env, IbcChannel, IbcOrder, ReplyOn, Response, SubMsgView,
};
use crate::proto::{
    abci_response_encoding, abci_response_value, cosmos_query_encoding, cosmos_response_encoding,
    cosmos_response_values, len_field, lemma_len_field_read, twap_response_encoding,
    lemma_varint_bytes_len, twap_response_text, varint_bytes,
};
use crate::text::parse_u128;

verus! {

/// The price the contract reads from an answer is the price text that the
/// host chain wrote into it: an answer holding one response whose value is
/// the encoded text reads as that text's decimal value (`Unparsable` where
/// it is not one). Of the response's own decoding this relies only on what
/// the decoder gives for a response whose one field is `value`.
pub proof fn law_price_read_back(text: Seq<char>)
    requires
        text.len() > 0,
        encode_utf8(text).len() <= 0xffff_ffff,
        abci_response_value(
            varint_bytes(len_field(7, twap_response_encoding(text)).len() as u64) + len_field(
                7,
                twap_response_encoding(text),
            ),
        ) == Some(twap_response_encoding(text)),
    ensures
        read_price(
            cosmos_response_encoding(seq![abci_response_encoding(twap_response_encoding(text))]),
        ) == match parse_u128(text) {
            Some(p) => PriceReading::Price(p),
            None => PriceReading::Unparsable,
        },
{
    let u = encode_utf8(text);
    let a = twap_response_encoding(text);
    let l7 = abci_response_encoding(a);
    let c = cosmos_response_encoding(seq![l7]);
    let e: Seq<u8> = Seq::empty();
    // The price response: one string field.
    assert(a == len_field(1, u));
    assert(a =~= e + len_field(1, u) + e);
    lemma_len_field_read(e, 1, u, e);
    let vu = varint_bytes(u.len() as u64).len() as int;
    encode_utf8_valid_utf8(text);
    encode_utf8_decode_utf8(text);
    assert(a.subrange(1 + vu, 1 + vu + u.len()) == u);
    assert(twap_response_text(a, a.len() as int, text) == Some(text));
    assert(twap_response_text(a, 0, Seq::empty()) == Some(text));
    // The query response: one bytes field holding the price response.
    assert(a.len() > 0);
    assert(l7 == len_field(7, a));
    // The answer: one response.
    assert(seq![l7].drop_last() =~= Seq::<Seq<u8>>::empty());
    assert(cosmos_query_encoding(Seq::<Seq<u8>>::empty()) == Seq::<u8>::empty());
    assert(cosmos_query_encoding(seq![l7]) == cosmos_query_encoding(seq![l7].drop_last())
        + len_field(1, l7));
    lemma_varint_bytes_len(u.len() as u64);
    lemma_varint_bytes_len(a.len() as u64);
    assert(varint_bytes(10).len() == 1);
    assert(varint_bytes(58).len() == 1);
    assert(l7.len() <= 0xffff_ffff + 30);
    assert(c =~= e + len_field(1, l7) + e);
    lemma_len_field_read(e, 1, l7, e);
    let v7 = varint_bytes(l7.len() as u64).len() as int;
    assert(c.subrange(1, 1 + v7 + l7.len()) =~= varint_bytes(l7.len() as u64) + l7);
    assert(cosmos_response_values(c, c.len() as int) == Some(Seq::<Seq<u8>>::empty()));
    assert(cosmos_response_values(c, 0) =~= Some(seq![a]));
}


/// The answer that carries the given price text, as the host chain encodes it.
pub open spec fn price_answer(text: Seq<char>) -> Seq<u8> {
    cosmos_response_encoding(seq![abci_response_encoding(twap_response_encoding(text))])
}

/// After an answer carrying a decimal price `p`, the amount owed is the
/// fixed amount times `p`, divided by 10^18, in the contract's denomination,
/// and the payout is marked as processing; a price that is not a decimal
/// amount is refused with `ParseError`.
pub proof fn law_owed_amount_of_answer(s: ContractStoreView, text: Seq<char>)
    requires
        s.contract_info is Some,
        text.len() > 0,
        encode_utf8(text).len() <= 0xffff_ffff,
        abci_response_value(
            varint_bytes(len_field(7, twap_response_encoding(text)).len() as u64) + len_field(
                7,
                twap_response_encoding(text),
            ),
        ) == Some(twap_response_encoding(text)),
    ensures
        packet_success_spec(s, Ok(price_answer(text))) == (
            with_status(s, StateStatus::Processing),
            match parse_u128(text) {
                None => Some(Err(ContractErrorView::ParseError)),
                Some(p) => match required_amount(s.contract_info.unwrap().fixed_amount.amount, p) {
                    Some(a) => Some(
                        Ok(CoinView { denom: s.contract_info.unwrap().contract_denom, amount: a }),
                    ),
                    None => Some(Err(mul_overflow_view())),
                },
            },
        ),
{
    law_price_read_back(text);
}

/// The total of a list of coins.
pub open spec fn coins_total(coins: Seq<CoinView>) -> int
    decreases coins.len(),
{
    if coins.len() == 0 {
        0
    } else {
        coins_total(coins.drop_last()) + coins.last().amount
    }
}

/// The tokens a message sends away.
pub open spec fn msg_total(m: CosmosMsgView) -> int {
    match m {
        CosmosMsgView::BankSend { amount, .. } => coins_total(amount),
        CosmosMsgView::FundCommunityPool { amount } => coins_total(amount),
        CosmosMsgView::IbcSendPacket { .. } => 0,
    }
}

/// The tokens a list of messages sends away.
pub open spec fn paid_total(msgs: Seq<SubMsgView>) -> int
    decreases msgs.len(),
{
    if msgs.len() == 0 {
        0
    } else {
        paid_total(msgs.drop_last()) + msg_total(msgs.last().msg)
    }
}

/// The payout spends the whole balance: the owner gets exactly what is
/// owed, the community pool the rest, both in the balance's denomination.
pub proof fn law_payout_spends_balance(
    owner: Seq<char>,
    required: CoinView,
    balance: CoinView,
    sequence: u64,
)
    requires
        required.amount <= balance.amount,
        required.denom == balance.denom,
    ensures
        ({
            let resp = payout_response(
                owner,
                required,
                CoinView { denom: balance.denom, amount: (balance.amount - required.amount) as u128 },
                sequence,
            );
            &&& paid_total(resp.messages) == balance.amount
            &&& resp.messages[0].msg == (CosmosMsgView::BankSend {
                to_address: owner,
                amount: seq![required],
            })
            &&& resp.messages[1].msg == (CosmosMsgView::FundCommunityPool {
                amount: seq![
                    CoinView {
                        denom: balance.denom,
                        amount: (balance.amount - required.amount) as u128,
                    },
                ],
            })
        }),
{
    let remain = CoinView { denom: balance.denom, amount: (balance.amount - required.amount) as u128 };
    let resp = payout_response(owner, required, remain, sequence);
    assert(seq![required].drop_last() =~= Seq::<CoinView>::empty());
    assert(seq![remain].drop_last() =~= Seq::<CoinView>::empty());
    assert(coins_total(Seq::<CoinView>::empty()) == 0);
    assert(seq![required].last() == required);
    assert(seq![remain].last() == remain);
    assert(coins_total(seq![required]) == required.amount);
    assert(coins_total(seq![remain]) == remain.amount);
    assert(resp.messages.drop_last().drop_last() =~= Seq::<SubMsgView>::empty());
    assert(paid_total(Seq::<SubMsgView>::empty()) == 0);
    assert(resp.messages.drop_last().last() == resp.messages[0]);
    assert(paid_total(resp.messages.drop_last()) == required.amount);
}

/// Once the channel is closed, no price query can be sent: the query is
/// refused for want of a channel.
pub proof fn law_closed_channel_stops_queries(
    s: ContractStoreView,
    env: &Env,
    r: Result<Response, crate::error::ContractError>,
)
    requires
        query_outcome(closed_store(s), env, r),
    ensures
        r matches Err(e) && e@ == generic_err_view(no_channel_msg()),
{
}

/// After a channel is connected, the price query goes out on that channel.
pub proof fn law_connected_channel_carries_query(
    s: ContractStoreView,
    channel: &IbcChannel,
    env: &Env,
    r: Result<Response, crate::error::ContractError>,
)
    requires
        s.twap_settings is Some,
        query_outcome(connected_store(s, channel), env, r),
    ensures
        r matches Ok(resp) && resp@.messages.len() == 1 && (resp@.messages[0].msg matches CosmosMsgView::IbcSendPacket {
            channel_id,
            ..
        } && channel_id == channel.endpoint.channel_id@),
{
}

/// A status change touches only the status: the rest of the record and the
/// other items stay; the last status written is the one that stands.
pub proof fn law_status_change_keeps_record(s: ContractStoreView, a: StateStatus, b: StateStatus)
    requires
        s.contract_info is Some,
    ensures
        with_status(s, a).contract_info == Some(
            ContractInfoView { state: a, ..s.contract_info.unwrap() },
        ),
        with_status(s, a).twap_settings == s.twap_settings,
        with_status(s, a).channel_info == s.channel_info,
        with_status(s, a).contract_version == s.contract_version,
        with_status(with_status(s, a), b) == with_status(s, b),
{
}

/// Through a successful payout (claim, answer, payment, reply) the record
/// keeps the owner, amount and denomination it was created with and ends
/// as paid.
pub proof fn law_successful_payout_ends_paid(s: ContractStoreView, msg: InstantiateMsg)
    ensures
        ({
            let created = instantiated_store(s, msg);
            let claimed = with_status(created, StateStatus::Requested);
            let answered = with_status(claimed, StateStatus::Processing);
            let paid = with_status(answered, StateStatus::Paid);
            paid.contract_info == Some(
                ContractInfoView { state: StateStatus::Paid, ..initial_contract_info(msg) },
            )
        }),
{
}


/// A query after creation reads back the record that creation wrote.
pub proof fn law_query_reads_created_record(
    s: ContractStoreView,
    msg: InstantiateMsg,
    r: Result<crate::state::ContractInfo, crate::error::StdError>,
)
    requires
        query_answer(instantiated_store(s, msg), r),
    ensures
        r matches Ok(c) && c@ == initial_contract_info(msg),
{
}


/// A channel is accepted only when it is unordered, its own version is
/// `icq-1`, and its counterparty's version, where known, is `icq-1` too. An
/// unordered channel whose own version is anything else is refused with
/// `InvalidIbcVersion` naming that version, whatever the counterparty
/// speaks; a channel whose own version is right but whose counterparty's is
/// not is refused naming the counterparty's.
pub proof fn law_channel_versions_are_checked(
    order: IbcOrder,
    version: Seq<char>,
    counterparty_version: Option<Seq<char>>,
)
    ensures
        order == IbcOrder::Ordered ==> channel_refusal(order, version, counterparty_version)
            == Some(ContractErrorView::OnlyOrderedChannel),
        (order == IbcOrder::Unordered && version != "icq-1"@) ==> channel_refusal(
            order,
            version,
            counterparty_version,
        ) == Some(ContractErrorView::InvalidIbcVersion { actual: version, expected: "icq-1"@ }),
        (order == IbcOrder::Unordered && version == "icq-1"@ && counterparty_version is Some
            && counterparty_version.unwrap() != "icq-1"@) ==> channel_refusal(order, version, counterparty_version) == Some(
            ContractErrorView::InvalidIbcVersion {
                actual: counterparty_version.unwrap(),
                expected: "icq-1"@,
            },
        ),
        channel_refusal(order, version, counterparty_version) is None <==> (order
            == IbcOrder::Unordered && version == "icq-1"@ && (counterparty_version is None
            || counterparty_version == Some("icq-1"@))),
{
    reveal_strlit("icq-1");
    assert(IBC_VERSION@ == "icq-1"@);
}

/// A claim does not depend on where the payout stands: with a contract
/// record, a positive balance, a recorded channel and recorded price
/// settings, every claim (also one while an earlier query is still pending,
/// or after it timed out) sets the status to `Requested`, leaves the rest of
/// the store as it was, and sends the price query on the recorded channel,
/// timing out two minutes after the block.
pub proof fn law_claim_ignores_current_status(
    s: ContractStoreView,
    env: &Env,
    balance: &Coin,
    s2: ContractStoreView,
    r: Result<Response, crate::error::ContractError>,
)
    requires
        s.contract_info is Some,
        balance.amount > 0,
        s.channel_info is Some,
        s.twap_settings is Some,
        query_time_ok(s, env),
        claim_outcome(s, env, balance, s2, r),
    ensures
        s2.contract_info == Some(
            ContractInfoView { state: StateStatus::Requested, ..s.contract_info.unwrap() },
        ),
        s2.channel_info == s.channel_info,
        s2.twap_settings == s.twap_settings,
        s2.contract_version == s.contract_version,
        r matches Ok(resp) && resp@.messages == seq![
            SubMsgView {
                id: 0,
                msg: CosmosMsgView::IbcSendPacket {
                    channel_id: s.channel_info.unwrap().id,
                    data: twap_query_packet(s.twap_settings.unwrap(), env.block_time_nanos),
                    timeout_nanos: (env.block_time_nanos + 120_000_000_000) as u64,
                },
                reply_on: ReplyOn::Never,
            },
        ] && resp@.attributes == seq![
            ("method"@, "send_query_balance"@),
            ("channel"@, s.channel_info.unwrap().id),
        ],
{
}

} // verus!
