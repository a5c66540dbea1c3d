use vstd::prelude::*;

use crate::error::{
    generic_err, generic_err_view, not_found, ContractError, ContractErrorView, StdError,
};
use crate::msg::{
    AbciQueryRequest, ArithmeticTwapToNowRequest, CosmosQuery, ExecuteMsg, InstantiateMsg,
    InterchainQueryPacketData, InterchainQueryPacketDataView, QueryMsg, Timestamp,
    TwapSettingsView,
};
use crate::proto::{abci_request_encoding, cosmos_query_encoding, twap_request_encoding};
use crate::state::{
    load_contract_info, load_twap_settings, update_contract_status, with_status,
    contract_info_missing, twap_settings_missing, ContractInfo, ContractInfoView, ContractStore,
    ContractStoreView, ContractVersion, StateStatus,
};
use crate::types::{
    attribute, Attribute, Coin, CosmosMsg, CosmosMsgView, Env, ReplyOn, Response,
    ResponseView, SubMsg, SubMsgView,
};

verus! {

/// The name the contract's code is recorded under.
pub const CONTRACT_NAME: &'static str = "crates.io:muffin";

/// The version the contract's code is recorded under.
pub const CONTRACT_VERSION: &'static str = "0.1.0";

/// Nanoseconds in a second.
pub const NANOS_PER_SECOND: u64 = 1_000_000_000;

/// How far back the price average reaches: four hours, in seconds.
pub const TWAP_WINDOW_SECONDS: u64 = 14400;

/// How long the query packet may take to arrive, in nanoseconds.
pub const PACKET_TIMEOUT_NANOS: u64 = 120_000_000_000;

/// The contract's record right after creation.
pub open spec fn initial_contract_info(msg: InstantiateMsg) -> ContractInfoView {
    ContractInfoView {
        owner_address: msg.owner_address@,
        community_pool_address: Seq::empty(),
        fixed_amount: msg.fixed_amount@,
        contract_denom: msg.contract_denom@,
        state: StateStatus::Initialized,
    }
}

/// The store right after creation: record, price settings and code version
/// written, the channel as it was.
pub open spec fn instantiated_store(s: ContractStoreView, msg: InstantiateMsg) -> ContractStoreView {
    ContractStoreView {
        contract_info: Some(initial_contract_info(msg)),
        twap_settings: Some(msg.twap_request_info@),
        contract_version: Some((CONTRACT_NAME@, CONTRACT_VERSION@)),
        ..s
    }
}

/// Creates the contract: records owner, amount, denomination and price
/// settings with the status `Initialized`, and the code's name and version.
pub fn instantiate(store: &mut ContractStore, msg: InstantiateMsg) -> (r: Result<
    Response,
    ContractError,
>)
    ensures
        r matches Ok(resp) && resp@ == (ResponseView {
            messages: Seq::empty(),
            attributes: seq![("method"@, "instantiate"@)],
            data: None,
        }),
        final(store)@ == instantiated_store(old(store)@, msg),
{
    let contract_info = ContractInfo {
        owner_address: msg.owner_address,
        community_pool_address: String::new(),
        fixed_amount: msg.fixed_amount,
        contract_denom: msg.contract_denom,
        state: StateStatus::Initialized,
    };
    store.contract_info = Some(contract_info);
    store.twap_settings = Some(msg.twap_request_info);
    store.contract_version = Some(
        ContractVersion {
            contract: CONTRACT_NAME.to_owned(),
            version: CONTRACT_VERSION.to_owned(),
        },
    );
    let mut attributes: Vec<Attribute> = Vec::new();
    attributes.push(attribute("method", "instantiate".to_owned()));
    let resp = Response { messages: Vec::new(), attributes, data: None };
    assert(resp@.attributes =~= seq![("method"@, "instantiate"@)]);
    assert(resp@.messages =~= Seq::empty());
    Ok(resp)
}

/// Runs an execute message: the one message claims the payout, given the
/// contract's balance in its denomination.
pub fn execute(
    store: &mut ContractStore,
    env: &Env,
    msg: ExecuteMsg,
    contract_balance: &Coin,
) -> (r: Result<Response, ContractError>)
    requires
        claim_time_ok(old(store)@, env, contract_balance),
    ensures
        claim_outcome(old(store)@, env, contract_balance, final(store)@, r),
{
    match msg {
        ExecuteMsg::ClaimProposalAmount {  } => claim_proposal_amount(store, env, contract_balance),
    }
}

/// The denomination whose balance the contract queries before a claim and
/// before a payout: its own.
pub fn balance_denom(store: &ContractStore) -> (r: Result<String, ContractError>)
    ensures
        match store@.contract_info {
            Some(ci) => r matches Ok(d) && d@ == ci.contract_denom,
            None => r matches Err(e) && e@ == contract_info_missing(),
        },
{
    let contract_info = load_contract_info(store)?;
    Ok(contract_info.contract_denom)
}

/// The message of the refusal to claim without tokens.
pub open spec fn no_tokens_msg() -> Seq<char> {
    "Contract does not have any tokens to send it to owner"@
}

/// The message of the refusal to query without a channel.
pub open spec fn no_channel_msg() -> Seq<char> {
    "Channel to ICQ module is not setup"@
}

/// Where a claim reaches the price query, the block time must allow the
/// four-hour look-back and the packet's timeout: the time arithmetic
/// overflows otherwise.
pub open spec fn claim_time_ok(s: ContractStoreView, env: &Env, balance: &Coin) -> bool {
    (s.contract_info is Some && balance.amount != 0) ==> query_time_ok(s, env)
}

/// Where the query is built, the block time must allow the four-hour
/// look-back and the packet's timeout: the time arithmetic overflows
/// otherwise.
pub open spec fn query_time_ok(s: ContractStoreView, env: &Env) -> bool {
    &&& s.channel_info is Some ==> env.block_time_nanos / NANOS_PER_SECOND >= TWAP_WINDOW_SECONDS
    &&& (s.channel_info is Some && s.twap_settings is Some) ==> env.block_time_nanos
        + PACKET_TIMEOUT_NANOS <= u64::MAX
}

/// The path of the price query on the host chain.
pub open spec fn twap_query_path() -> Seq<char> {
    "/osmosis.twap.v1beta1.Query/ArithmeticTwapToNow"@
}

/// The packet that asks for the average price over the four hours before
/// `block_time_nanos`.
pub open spec fn twap_query_packet(t: TwapSettingsView, block_time_nanos: u64) -> InterchainQueryPacketDataView {
    let start = Timestamp {
        seconds: (block_time_nanos / NANOS_PER_SECOND - TWAP_WINDOW_SECONDS) as i64,
        nanos: 0,
    };
    let request = twap_request_encoding(t.pool_id, t.base_asset, t.quote_asset, Some(start));
    let abci = abci_request_encoding(request, twap_query_path(), 0, false);
    InterchainQueryPacketDataView {
        data: cosmos_query_encoding(seq![abci]),
        memo: "TWAP ICQ request"@,
    }
}

/// The answer that sends the price query on the given channel.
pub open spec fn twap_query_response(
    channel_id: Seq<char>,
    t: TwapSettingsView,
    block_time_nanos: u64,
) -> ResponseView {
    ResponseView {
        messages: seq![
            SubMsgView {
                id: 0,
                msg: CosmosMsgView::IbcSendPacket {
                    channel_id,
                    data: twap_query_packet(t, block_time_nanos),
                    timeout_nanos: (block_time_nanos + PACKET_TIMEOUT_NANOS) as u64,
                },
                reply_on: ReplyOn::Never,
            },
        ],
        attributes: seq![("method"@, "send_query_balance"@), ("channel"@, channel_id)],
        data: None,
    }
}

/// What sending the price query gives on a store: it needs the channel and
/// the price settings.
pub open spec fn query_outcome(
    s: ContractStoreView,
    env: &Env,
    r: Result<Response, ContractError>,
) -> bool {
    match s.channel_info {
        None => r matches Err(e) && e@ == generic_err_view(no_channel_msg()),
        Some(ch) => match s.twap_settings {
            None => r matches Err(e) && e@ == twap_settings_missing(),
            Some(t) => r matches Ok(resp) && resp@ == twap_query_response(
                ch.id,
                t,
                env.block_time_nanos,
            ),
        },
    }
}

/// What a claim gives: it needs the contract record and a positive balance;
/// it then sets the status to `Requested` and sends the price query.
pub open spec fn claim_outcome(
    s: ContractStoreView,
    env: &Env,
    balance: &Coin,
    s2: ContractStoreView,
    r: Result<Response, ContractError>,
) -> bool {
    match s.contract_info {
        None => s2 == s && (r matches Err(e) && e@ == contract_info_missing()),
        Some(_) => if balance.amount == 0 {
            s2 == s && (r matches Err(e) && e@ == generic_err_view(no_tokens_msg()))
        } else {
            s2 == with_status(s, StateStatus::Requested) && query_outcome(s2, env, r)
        },
    }
}

/// Claims the payout: given the contract's balance in its denomination, marks
/// the payout as requested and asks the host chain for the price.
pub fn claim_proposal_amount(store: &mut ContractStore, env: &Env, contract_balance: &Coin) -> (r:
    Result<Response, ContractError>)
    requires
        claim_time_ok(old(store)@, env, contract_balance),
    ensures
        claim_outcome(old(store)@, env, contract_balance, final(store)@, r),
{
    let _contract_info = load_contract_info(store)?;
    if contract_balance.amount == 0 {
        proof {
            reveal_strlit("Contract does not have any tokens to send it to owner");
        }
        return Err(generic_err("Contract does not have any tokens to send it to owner"));
    }
    update_contract_status(store, StateStatus::Requested)?;
    send_twap_icq_query(store, env)
}

/// The id of the channel to the host chain's query module.
pub fn get_channel_id(store: &ContractStore) -> (r: Result<String, ContractError>)
    ensures
        match store@.channel_info {
            Some(ch) => r matches Ok(id) && id@ == ch.id,
            None => r matches Err(e) && e@ == generic_err_view(no_channel_msg()),
        },
{
    match &store.channel_info {
        Some(channel_info) => Ok(channel_info.id.clone()),
        None => {
            proof {
                reveal_strlit("Channel to ICQ module is not setup");
            }
            Err(generic_err("Channel to ICQ module is not setup"))
        },
    }
}

/// Builds the packet that asks the host chain for the average price of the
/// configured pool over the four hours before the block time, and sends it
/// on the channel, with a two-minute timeout.
pub fn send_twap_icq_query(store: &ContractStore, env: &Env) -> (r: Result<
    Response,
    ContractError,
>)
    requires
        query_time_ok(store@, env),
    ensures
        query_outcome(store@, env, r),
{
    let channel_id = get_channel_id(store)?;
    let block_seconds = env.block_time_nanos / NANOS_PER_SECOND;
    let new_time = block_seconds - TWAP_WINDOW_SECONDS;
    let timestamp = Timestamp { seconds: new_time as i64, nanos: 0 };
    let twap_settings = load_twap_settings(store)?;
    let query_twap_request = ArithmeticTwapToNowRequest {
        pool_id: twap_settings.pool_id,
        base_asset: twap_settings.base_asset,
        quote_asset: twap_settings.quote_asset,
        start_time: Some(timestamp),
    };
    proof {
        reveal_strlit("/osmosis.twap.v1beta1.Query/ArithmeticTwapToNow");
        reveal_strlit("TWAP ICQ request");
    }
    let req = AbciQueryRequest {
        data: query_twap_request.encode_to_vec(),
        path: "/osmosis.twap.v1beta1.Query/ArithmeticTwapToNow".to_owned(),
        height: 0,
        prove: false,
    };
    let ghost req_bytes = abci_request_encoding(req.data@, req.path@, req.height, req.prove);
    let mut requests: Vec<AbciQueryRequest> = Vec::new();
    requests.push(req);
    let cosmos_query = CosmosQuery { requests };
    let data = cosmos_query.encode_to_vec();
    assert(crate::proto::requests_encodings(cosmos_query.requests@) =~= seq![req_bytes]);
    let packet_data = InterchainQueryPacketData { data, memo: "TWAP ICQ request".to_owned() };
    let timeout = env.block_time_nanos + PACKET_TIMEOUT_NANOS;
    let ibc_msg = CosmosMsg::IbcSendPacket {
        channel_id: channel_id.clone(),
        data: packet_data,
        timeout_nanos: timeout,
    };
    let mut messages: Vec<SubMsg> = Vec::new();
    messages.push(SubMsg { id: 0, msg: ibc_msg, reply_on: ReplyOn::Never });
    let mut attributes: Vec<Attribute> = Vec::new();
    attributes.push(attribute("method", "send_query_balance".to_owned()));
    attributes.push(attribute("channel", channel_id));
    let resp = Response { messages, attributes, data: None };
    proof {
        let t = store@.twap_settings.unwrap();
        assert(resp@.attributes =~= twap_query_response(
            store@.channel_info.unwrap().id,
            t,
            env.block_time_nanos,
        ).attributes);
        assert(resp@.messages =~= twap_query_response(
            store@.channel_info.unwrap().id,
            t,
            env.block_time_nanos,
        ).messages);
    }
    Ok(resp)
}

/// The answer to a query on a store: its contract record.
pub open spec fn query_answer(s: ContractStoreView, r: Result<ContractInfo, StdError>) -> bool {
    match s.contract_info {
        Some(ci) => r matches Ok(c) && c@ == ci,
        None => r matches Err(e) && ContractErrorView::Std(e@) == contract_info_missing(),
    }
}

/// Answers a query: the contract record.
pub fn query(store: &ContractStore, msg: QueryMsg) -> (r: Result<ContractInfo, StdError>)
    ensures
        query_answer(store@, r),
{
    match msg {
        QueryMsg::ContractInfo {  } => match &store.contract_info {
            Some(ci) => Ok(ci.duplicate()),
            None => {
                proof {
                    reveal_strlit("muffin::state::ContractInfo");
                }
                Err(not_found("muffin::state::ContractInfo"))
            },
        },
    }
}

} // verus!
