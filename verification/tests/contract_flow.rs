use muffin::ack::Ack;
use muffin::contract::{
    balance_denom, claim_proposal_amount, execute, get_channel_id, instantiate, query,
    send_twap_icq_query, CONTRACT_NAME, CONTRACT_VERSION,
};
use muffin::error::{ContractError, StdError};
use muffin::msg::{ExecuteMsg, InstantiateMsg, InterchainQueryPacketData, QueryMsg, TwapSettings};
use muffin::state::{ChannelInfo, ContractStore, StateStatus};
use muffin::types::{Attribute, Coin, CosmosMsg, Env, IbcEndpoint, ReplyOn};

use cosmos_sdk_proto::cosmos::base::tendermint::v1beta1::AbciQueryRequest as ProtoAbciQueryRequest;
use prost::Message;

fn attr(key: &str, value: &str) -> Attribute {
    Attribute { key: key.to_string(), value: value.to_string() }
}

fn sample_msg() -> InstantiateMsg {
    InstantiateMsg {
        fixed_amount: Coin { denom: "uusd".to_string(), amount: 1_000 },
        owner_address: "owner".to_string(),
        contract_denom: "uosmo".to_string(),
        twap_request_info: TwapSettings {
            pool_id: 1,
            base_asset: "uosmo".to_string(),
            quote_asset: "uatom".to_string(),
        },
    }
}

fn sample_env() -> Env {
    Env { block_time_nanos: 1_700_000_000_000_000_000, contract_address: "contract".to_string() }
}

fn channel_info() -> ChannelInfo {
    ChannelInfo {
        id: "channel-7".to_string(),
        counterparty_endpoint: IbcEndpoint {
            port_id: "icqhost".to_string(),
            channel_id: "channel-9".to_string(),
        },
        connection_id: "connection-0".to_string(),
    }
}

fn created_store() -> ContractStore {
    let mut store = ContractStore::empty();
    instantiate(&mut store, sample_msg()).unwrap();
    store
}

fn not_found(kind: &str) -> ContractError {
    ContractError::Std(StdError::NotFound { kind: kind.to_string() })
}

fn generic(msg: &str) -> ContractError {
    ContractError::Std(StdError::GenericErr { msg: msg.to_string() })
}

/// The packet the contract is expected to send for `sample_msg` at `sample_env`.
fn expected_packet() -> Vec<u8> {
    // start time: 1_700_000_000 - 14_400 seconds
    let mut twap = vec![0x08, 0x01, 0x12, 5];
    twap.extend_from_slice(b"uosmo");
    twap.extend_from_slice(&[0x1a, 5]);
    twap.extend_from_slice(b"uatom");
    twap.extend_from_slice(&[0x22, 6, 0x08, 192, 241, 206, 170, 6]);
    let request = ProtoAbciQueryRequest {
        data: twap,
        path: "/osmosis.twap.v1beta1.Query/ArithmeticTwapToNow".to_string(),
        height: 0,
        prove: false,
    }
    .encode_to_vec();
    let mut query = vec![0x0a, request.len() as u8];
    query.extend_from_slice(&request);
    query
}

#[test]
fn instantiate_records_the_contract() {
    let mut store = ContractStore::empty();
    let resp = instantiate(&mut store, sample_msg()).unwrap();
    assert_eq!(resp.attributes, vec![attr("method", "instantiate")]);
    assert!(resp.messages.is_empty());
    assert_eq!(resp.data, None);
    let info = store.contract_info.clone().unwrap();
    assert_eq!(info.owner_address, "owner");
    assert_eq!(info.community_pool_address, "");
    assert_eq!(info.fixed_amount, Coin { denom: "uusd".to_string(), amount: 1_000 });
    assert_eq!(info.contract_denom, "uosmo");
    assert_eq!(info.state, StateStatus::Initialized);
    assert_eq!(store.twap_settings, Some(sample_msg().twap_request_info));
    let version = store.contract_version.clone().unwrap();
    assert_eq!(version.contract, CONTRACT_NAME);
    assert_eq!(version.version, CONTRACT_VERSION);
    assert_eq!(store.channel_info, None);
}

#[test]
fn query_returns_the_record() {
    let store = created_store();
    assert_eq!(query(&store, QueryMsg::ContractInfo {}).unwrap(), store.contract_info.clone().unwrap());
    let empty = ContractStore::empty();
    assert_eq!(
        query(&empty, QueryMsg::ContractInfo {}),
        Err(StdError::NotFound { kind: "muffin::state::ContractInfo".to_string() })
    );
}

#[test]
fn claim_needs_a_record() {
    let mut store = ContractStore::empty();
    let balance = Coin { denom: "uosmo".to_string(), amount: 5 };
    assert_eq!(balance_denom(&store), Err(not_found("muffin::state::ContractInfo")));
    assert_eq!(
        claim_proposal_amount(&mut store, &sample_env(), &balance),
        Err(not_found("muffin::state::ContractInfo"))
    );
    assert_eq!(store, ContractStore::empty());
}

#[test]
fn claim_asks_for_the_contract_denomination() {
    let store = created_store();
    assert_eq!(balance_denom(&store), Ok("uosmo".to_string()));
}

#[test]
fn claim_refuses_an_empty_balance() {
    let mut store = created_store();
    let before = store.clone();
    let balance = Coin { denom: "uosmo".to_string(), amount: 0 };
    assert_eq!(
        claim_proposal_amount(&mut store, &sample_env(), &balance),
        Err(generic("Contract does not have any tokens to send it to owner"))
    );
    assert_eq!(store, before);
}

#[test]
fn claim_without_channel_fails_after_marking_requested() {
    let mut store = created_store();
    let balance = Coin { denom: "uosmo".to_string(), amount: 5 };
    assert_eq!(
        claim_proposal_amount(&mut store, &sample_env(), &balance),
        Err(generic("Channel to ICQ module is not setup"))
    );
    assert_eq!(store.contract_info.unwrap().state, StateStatus::Requested);
}

#[test]
fn claim_sends_the_price_query() {
    let mut store = created_store();
    store.channel_info = Some(channel_info());
    let balance = Coin { denom: "uosmo".to_string(), amount: 5 };
    let resp = execute(&mut store, &sample_env(), ExecuteMsg::ClaimProposalAmount {}, &balance).unwrap();
    assert_eq!(store.contract_info.clone().unwrap().state, StateStatus::Requested);
    assert_eq!(
        resp.attributes,
        vec![attr("method", "send_query_balance"), attr("channel", "channel-7")]
    );
    assert_eq!(resp.messages.len(), 1);
    let sub = &resp.messages[0];
    assert_eq!(sub.id, 0);
    assert_eq!(sub.reply_on, ReplyOn::Never);
    assert_eq!(
        sub.msg,
        CosmosMsg::IbcSendPacket {
            channel_id: "channel-7".to_string(),
            data: InterchainQueryPacketData {
                data: expected_packet(),
                memo: "TWAP ICQ request".to_string(),
            },
            timeout_nanos: 1_700_000_120_000_000_000,
        }
    );
}

#[test]
fn query_needs_price_settings() {
    let mut store = ContractStore::empty();
    store.channel_info = Some(channel_info());
    assert_eq!(
        send_twap_icq_query(&store, &sample_env()),
        Err(not_found("muffin::msg::TwapSettings"))
    );
}

#[test]
fn channel_id_is_the_recorded_one() {
    let mut store = ContractStore::empty();
    assert_eq!(get_channel_id(&store), Err(generic("Channel to ICQ module is not setup")));
    store.channel_info = Some(channel_info());
    assert_eq!(get_channel_id(&store), Ok("channel-7".to_string()));
}

#[test]
fn ack_values_are_plain() {
    assert_eq!(muffin::ack::make_ack_success(), Ack::Result(b"1".to_vec()));
    assert_eq!(muffin::ack::make_ack_fail("boom".to_string()), Ack::Error("boom".to_string()));
}
