# muffin

A CosmWasm contract that pays its owner a fixed amount, converted at the
time-weighted average price of an Osmosis pool, and gives the rest of its
balance to the community pool. The price comes over IBC from the host chain's
interchain-query module.

Layout:

- `src/` — the library, verified with Verus:
  - `state.rs`: the contract's storage as a value (`ContractStore`) and the
    status record;
  - `contract.rs`: creation, the claim, the price query it sends, the query
    entry point;
  - `ibc.rs`: the channel handshake, acknowledgements, the payout, replies;
  - `proto.rs`: the protobuf wire format of the query and of the answer
    (encoding, decoding, skipping unknown fields), with `prost` and
    `cosmos-sdk-proto` behind small trusted wrappers;
  - `text.rs`, `error.rs`, `ack.rs`, `msg.rs`, `types.rs`: values the
    contract works with;
  - `laws.rs`: properties that span functions (the price read back from an
    answer, the payout spending the balance, the channel's life, the status
    record's life).
- `app/` — the entry points: storage, balance queries, JSON, conversion to
  and from `cosmwasm-std` types.
- `tests/` — tests of the library on concrete values.
