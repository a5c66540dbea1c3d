use muffin::ack::Ack;
use muffin::contract::instantiate;
use muffin::error::{ContractError, OverflowOperation, StdError};
use muffin::ibc::{
    calculate_required_balance, ibc_channel_close, ibc_channel_connect, ibc_channel_open,
    ibc_packet_ack, ibc_packet_receive, ibc_packet_timeout, on_packet_success, pay_out, reply,
    subtract_coins, validate_order_and_version, PacketAckStep, IBC_VERSION, RECEIVE_ID,
};
use muffin::msg::{CosmosResponsePacket, InstantiateMsg, TwapSettings};
use muffin::state::{ChannelInfo, ContractStore, StateStatus};
use muffin::types::{Attribute, Coin, CosmosMsg, IbcChannel, IbcEndpoint, IbcOrder, Reply, ReplyOn};

use cosmos_sdk_proto::cosmos::base::tendermint::v1beta1::AbciQueryResponse;
use prost::Message;

fn attr(key: &str, value: &str) -> Attribute {
    Attribute { key: key.to_string(), value: value.to_string() }
}

fn channel(order: IbcOrder, version: &str) -> IbcChannel {
    IbcChannel {
        endpoint: IbcEndpoint { port_id: "wasm.muffin".to_string(), channel_id: "channel-3".to_string() },
        counterparty_endpoint: IbcEndpoint {
            port_id: "icqhost".to_string(),
            channel_id: "channel-12".to_string(),
        },
        order,
        version: version.to_string(),
        connection_id: "connection-1".to_string(),
    }
}

fn store_with(fixed: u128) -> ContractStore {
    let mut store = ContractStore::empty();
    instantiate(
        &mut store,
        InstantiateMsg {
            fixed_amount: Coin { denom: "uusd".to_string(), amount: fixed },
            owner_address: "owner".to_string(),
            contract_denom: "uosmo".to_string(),
            twap_request_info: TwapSettings {
                pool_id: 1,
                base_asset: "uosmo".to_string(),
                quote_asset: "uatom".to_string(),
            },
        },
    )
    .unwrap();
    store
}

fn status(store: &ContractStore) -> StateStatus {
    store.contract_info.as_ref().unwrap().state
}

/// The answer of the host chain: one response whose value is the encoded price.
fn answer_with_prices(prices: &[&str]) -> Vec<u8> {
    let mut out = Vec::new();
    for price in prices {
        let mut twap = vec![0x0a, price.len() as u8];
        twap.extend_from_slice(price.as_bytes());
        let response = AbciQueryResponse { value: twap, height: 42, ..Default::default() }.encode_to_vec();
        out.push(0x0a);
        out.push(response.len() as u8);
        out.extend_from_slice(&response);
    }
    out
}

fn packet(data: Vec<u8>) -> CosmosResponsePacket {
    CosmosResponsePacket { data }
}

fn not_found() -> ContractError {
    ContractError::Std(StdError::NotFound { kind: "muffin::state::ContractInfo".to_string() })
}

fn proto_err() -> ContractError {
    ContractError::Std(StdError::ParseErr {
        target_type: "ProtoCoin".to_string(),
        msg: "parsing Proto response".to_string(),
    })
}

#[test]
fn version_and_order_are_checked() {
    assert_eq!(IBC_VERSION, "icq-1");
    assert_eq!(validate_order_and_version(&channel(IbcOrder::Unordered, "icq-1"), None), Ok(()));
    assert_eq!(
        validate_order_and_version(&channel(IbcOrder::Unordered, "icq-1"), Some("icq-1")),
        Ok(())
    );
    assert_eq!(
        validate_order_and_version(&channel(IbcOrder::Ordered, "icq-1"), None),
        Err(ContractError::OnlyOrderedChannel {})
    );
    assert_eq!(
        validate_order_and_version(&channel(IbcOrder::Unordered, "ics20-1"), None),
        Err(ContractError::InvalidIbcVersion {
            actual: "ics20-1".to_string(),
            expected: "icq-1".to_string()
        })
    );
    assert_eq!(
        validate_order_and_version(&channel(IbcOrder::Unordered, "icq-1"), Some("icq-2")),
        Err(ContractError::InvalidIbcVersion {
            actual: "icq-2".to_string(),
            expected: "icq-1".to_string()
        })
    );
    assert_eq!(
        ibc_channel_open(&channel(IbcOrder::Ordered, "icq-2"), Some("icq-2")),
        Err(ContractError::OnlyOrderedChannel {})
    );
}

#[test]
fn connect_records_and_close_forgets_the_channel() {
    let mut store = store_with(1);
    let refused = ibc_channel_connect(&mut store, channel(IbcOrder::Ordered, "icq-1"), None);
    assert_eq!(refused, Err(ContractError::OnlyOrderedChannel {}));
    assert_eq!(store.channel_info, None);

    let resp = ibc_channel_connect(&mut store, channel(IbcOrder::Unordered, "icq-1"), Some("icq-1")).unwrap();
    assert!(resp.messages.is_empty() && resp.attributes.is_empty());
    assert_eq!(
        store.channel_info,
        Some(ChannelInfo {
            id: "channel-3".to_string(),
            counterparty_endpoint: IbcEndpoint {
                port_id: "icqhost".to_string(),
                channel_id: "channel-12".to_string()
            },
            connection_id: "connection-1".to_string(),
        })
    );

    let resp = ibc_channel_close(&mut store, &channel(IbcOrder::Unordered, "icq-1")).unwrap();
    assert_eq!(resp.attributes, vec![attr("method", "ibc_channel_close"), attr("channel", "channel-3")]);
    assert_eq!(store.channel_info, None);
    assert_eq!(status(&store), StateStatus::Initialized);
}

#[test]
fn received_packets_are_acknowledged() {
    let resp = ibc_packet_receive().unwrap();
    assert_eq!(resp.acknowledgement, Ack::Result(b"1".to_vec()));
    assert_eq!(resp.attributes, vec![attr("method", "ibc_packet_receive")]);
    let resp = ibc_packet_timeout().unwrap();
    assert_eq!(resp.attributes, vec![attr("method", "ibc_packet_timeout")]);
}

#[test]
fn error_ack_marks_failed() {
    let mut store = store_with(1);
    let step = ibc_packet_ack(
        &mut store,
        Ok(Ack::Error("query failed".to_string())),
        Ok(packet(Vec::new())),
        17,
    );
    match step {
        Some(Ok(PacketAckStep::Finished(resp))) => {
            assert!(resp.messages.is_empty());
            assert_eq!(
                resp.attributes,
                vec![
                    attr("method", "ibc_packet_ack"),
                    attr("error", "query failed"),
                    attr("sequence", "17")
                ]
            );
        },
        _ => panic!("expected a finished acknowledgement"),
    }
    assert_eq!(status(&store), StateStatus::Failed);
}

#[test]
fn unreadable_ack_is_an_error() {
    let mut store = store_with(1);
    let err = StdError::ParseErr { target_type: "Ack".to_string(), msg: "bad json".to_string() };
    let step = ibc_packet_ack(&mut store, Err(err.clone()), Ok(packet(Vec::new())), 1);
    assert!(matches!(step, Some(Err(ContractError::Std(e))) if e == err));
    assert_eq!(status(&store), StateStatus::Initialized);
}

#[test]
fn result_ack_computes_the_amount_owed() {
    // 2_500 tokens at a price of 1.5 (scaled by 10^18): 3_750 owed.
    let mut store = store_with(2_500);
    let step = ibc_packet_ack(
        &mut store,
        Ok(Ack::Result(b"x".to_vec())),
        Ok(packet(answer_with_prices(&["1500000000000000000"]))),
        5,
    );
    match step {
        Some(Ok(PacketAckStep::AwaitBalance(required))) => {
            assert_eq!(required, Coin { denom: "uosmo".to_string(), amount: 3_750 });
        },
        _ => panic!("expected the amount owed"),
    }
    assert_eq!(status(&store), StateStatus::Processing);
}

#[test]
fn only_the_first_response_counts() {
    let mut store = store_with(10);
    let required = on_packet_success(&mut store, Ok(packet(answer_with_prices(&["2000000000000000000", "7"]))));
    assert_eq!(required, Some(Ok(Coin { denom: "uosmo".to_string(), amount: 20 })));
}

#[test]
fn an_answer_without_responses_aborts() {
    let mut store = store_with(10);
    assert_eq!(on_packet_success(&mut store, Ok(packet(Vec::new()))), None);
    assert_eq!(status(&store), StateStatus::Processing);
}

#[test]
fn a_malformed_answer_is_a_decode_error() {
    let mut store = store_with(10);
    assert_eq!(on_packet_success(&mut store, Ok(packet(vec![0x0a, 0x05, 0x01]))), Some(Err(proto_err())));
    // a response whose price is not UTF-8
    let response = AbciQueryResponse { value: vec![0x0a, 0x01, 0xff], ..Default::default() }.encode_to_vec();
    let mut answer = vec![0x0a, response.len() as u8];
    answer.extend_from_slice(&response);
    assert_eq!(on_packet_success(&mut store, Ok(packet(answer))), Some(Err(proto_err())));
}

#[test]
fn a_price_that_is_not_a_number_is_refused() {
    let mut store = store_with(10);
    assert_eq!(
        on_packet_success(&mut store, Ok(packet(answer_with_prices(&["1.5"])))),
        Some(Err(ContractError::ParseError {}))
    );
    assert_eq!(
        on_packet_success(&mut store, Ok(packet(answer_with_prices(&["+12"])))),
        Some(Ok(Coin { denom: "uosmo".to_string(), amount: 0 }))
    );
    assert_eq!(
        on_packet_success(&mut store, Ok(packet(answer_with_prices(&["340282366920938463463374607431768211456"])))),
        Some(Err(ContractError::ParseError {}))
    );
}

#[test]
fn prices_parse_as_unsigned_decimals() {
    let owed = |price: &str| {
        let mut store = store_with(1_000_000_000_000_000_000);
        on_packet_success(&mut store, Ok(packet(answer_with_prices(&[price]))))
    };
    let coin = |amount: u128| Some(Ok(Coin { denom: "uosmo".to_string(), amount }));
    assert_eq!(owed("1500"), coin(1500));
    assert_eq!(owed("+7"), coin(7));
    assert_eq!(owed("007"), coin(7));
    assert_eq!(owed("+"), Some(Err(ContractError::ParseError {})));
    assert_eq!(owed(""), Some(Err(ContractError::ParseError {})));
    assert_eq!(owed("-1"), Some(Err(ContractError::ParseError {})));
    assert_eq!(owed(" 1"), Some(Err(ContractError::ParseError {})));
    assert_eq!(owed("1e3"), Some(Err(ContractError::ParseError {})));
    let mut store = store_with(1);
    assert_eq!(
        on_packet_success(
            &mut store,
            Ok(packet(answer_with_prices(&["340282366920938463463374607431768211455"])))
        ),
        Some(Ok(Coin { denom: "uosmo".to_string(), amount: 340_282_366_920_938_463_463 }))
    );
}

#[test]
fn an_unreadable_packet_is_passed_on() {
    let mut store = store_with(10);
    let err = StdError::ParseErr { target_type: "CosmosResponsePacket".to_string(), msg: "x".to_string() };
    assert_eq!(on_packet_success(&mut store, Err(err.clone())), Some(Err(ContractError::Std(err))));
    assert_eq!(status(&store), StateStatus::Processing);
}

#[test]
fn a_missing_record_stops_the_answer() {
    let mut store = ContractStore::empty();
    assert_eq!(on_packet_success(&mut store, Ok(packet(answer_with_prices(&["1"])))), Some(Err(not_found())));
    assert_eq!(store, ContractStore::empty());
}

#[test]
fn required_balance_is_scaled_and_checked() {
    let fixed = Coin { denom: "uusd".to_string(), amount: 3 };
    assert_eq!(
        calculate_required_balance(&fixed, 999_999_999_999_999_999, "uosmo".to_string()),
        Ok(Coin { denom: "uosmo".to_string(), amount: 2 })
    );
    let huge = Coin { denom: "uusd".to_string(), amount: u128::MAX };
    assert_eq!(
        calculate_required_balance(&huge, 2, "uosmo".to_string()),
        Err(ContractError::Std(StdError::Overflow { operation: OverflowOperation::Mul }))
    );
}

#[test]
fn coins_subtract_within_a_denomination() {
    let a = Coin { denom: "uosmo".to_string(), amount: 10 };
    let b = Coin { denom: "uosmo".to_string(), amount: 4 };
    assert_eq!(subtract_coins(a.clone(), b), Ok(Coin { denom: "uosmo".to_string(), amount: 6 }));
    let c = Coin { denom: "uatom".to_string(), amount: 4 };
    assert_eq!(
        subtract_coins(a, c),
        Err(ContractError::Std(StdError::GenericErr {
            msg: "Different denominations. Cannot subtract.".to_string()
        }))
    );
}

#[test]
fn payout_spends_the_balance() {
    let mut store = store_with(10);
    let required = Coin { denom: "uosmo".to_string(), amount: 30 };
    let balance = Coin { denom: "uosmo".to_string(), amount: 100 };
    let resp = pay_out(&mut store, required.clone(), balance, 123_456).unwrap();
    assert_eq!(resp.attributes, vec![attr("method", "ibc_packet_ack"), attr("sequence", "123456")]);
    assert_eq!(resp.messages.len(), 2);
    assert_eq!(resp.messages[0].id, RECEIVE_ID);
    assert_eq!(resp.messages[0].reply_on, ReplyOn::Success);
    assert_eq!(
        resp.messages[0].msg,
        CosmosMsg::BankSend { to_address: "owner".to_string(), amount: vec![required] }
    );
    assert_eq!(resp.messages[1].id, RECEIVE_ID);
    assert_eq!(resp.messages[1].reply_on, ReplyOn::Success);
    assert_eq!(
        resp.messages[1].msg,
        CosmosMsg::FundCommunityPool { amount: vec![Coin { denom: "uosmo".to_string(), amount: 70 }] }
    );
    assert_eq!(status(&store), StateStatus::Initialized);
}

#[test]
fn payout_short_of_tokens_fails() {
    let mut store = store_with(10);
    let required = Coin { denom: "uosmo".to_string(), amount: 101 };
    let balance = Coin { denom: "uosmo".to_string(), amount: 100 };
    assert_eq!(pay_out(&mut store, required, balance, 1), Err(ContractError::NoEnoughTokens {}));
    assert_eq!(status(&store), StateStatus::Failed);
}

#[test]
fn payout_in_another_denomination_fails() {
    let mut store = store_with(10);
    let required = Coin { denom: "uosmo".to_string(), amount: 1 };
    let balance = Coin { denom: "uatom".to_string(), amount: 100 };
    assert_eq!(
        pay_out(&mut store, required, balance, 1),
        Err(ContractError::Std(StdError::GenericErr {
            msg: "Different denominations. Cannot subtract.".to_string()
        }))
    );
}

#[test]
fn replies_settle_the_status() {
    let mut store = store_with(10);
    let resp = reply(&mut store, &Reply { id: RECEIVE_ID, result: Ok(()) }).unwrap();
    assert_eq!(resp.attributes, vec![attr("method", "contract_paid")]);
    assert_eq!(status(&store), StateStatus::Paid);

    let resp = reply(&mut store, &Reply { id: RECEIVE_ID, result: Err("out of gas".to_string()) }).unwrap();
    assert!(resp.attributes.is_empty() && resp.messages.is_empty());
    assert_eq!(resp.data, Some(Ack::Error("out of gas".to_string())));
    assert_eq!(status(&store), StateStatus::Failed);

    let before = store.clone();
    assert_eq!(
        reply(&mut store, &Reply { id: 7, result: Ok(()) }),
        Err(ContractError::UnknownReplyId { id: 7 })
    );
    assert_eq!(store, before);

    let mut empty = ContractStore::empty();
    assert_eq!(reply(&mut empty, &Reply { id: RECEIVE_ID, result: Ok(()) }), Err(not_found()));
}
