//! The protobuf wire format of the messages the contract sends and reads.
use vstd::prelude::*;
use vstd::utf8::{decode_utf8, encode_utf8, valid_utf8};

use crate::msg::{
    AbciQueryRequest, ArithmeticTwapToNowRequest, ArithmeticTwapToNowResponse, CosmosQuery,
    Timestamp,
};
use crate::text::utf8_to_string;
use prost::Message;

verus! {

// ---------------------------------------------------------------------------
// Varints
// ---------------------------------------------------------------------------

/// The shortest base-128 encoding of a number: seven bits a byte, least
/// significant first, the top bit set on every byte but the last.
pub open spec fn varint_bytes(v: u64) -> Seq<u8>
    decreases v,
{
    if v < 128 {
        seq![v as u8]
    } else {
        seq![(v % 128 + 128) as u8] + varint_bytes(v / 128)
    }
}

/// The value and end of a varint in `s` that starts at `start`, read from its
/// byte `k` on: a varint ends at its first byte below 128, is at most ten
/// bytes long, and its tenth byte is at most 1 (so the value fits 64 bits).
pub open spec fn varint_from(s: Seq<u8>, start: int, k: nat) -> Option<(int, int)>
    decreases 10 - k,
{
    if k >= 10 || start < 0 || start + k >= s.len() {
        None
    } else {
        let b = s[start + k];
        if b < 128 {
            if k == 9 && b >= 2 {
                None
            } else {
                Some((b as int, start + k + 1))
            }
        } else {
            match varint_from(s, start, k + 1) {
                Some((v, e)) => Some(((b - 128) + 128 * v, e)),
                None => None,
            }
        }
    }
}

/// The value of the varint at `pos` in `s` and the position just after it;
/// `None` where no valid varint starts there.
pub open spec fn varint_at(s: Seq<u8>, pos: int) -> Option<(u64, int)> {
    match varint_from(s, pos, 0) {
        Some((v, e)) => Some((v as u64, e)),
        None => None,
    }
}

/// Appends the varint encoding of `value` with `prost::encoding::encode_varint`,
/// which writes seven bits a byte, least significant first, with the top bit
/// set on every byte but the last, and stops as soon as the rest is below 128.
#[verifier::external_body]
fn prost_encode_varint(value: u64, buf: &mut Vec<u8>)
    ensures
        final(buf)@ == old(buf)@ + varint_bytes(value),
{
    prost::encoding::encode_varint(value, buf)
}

/// Reads a varint from the start of `bytes` with
/// `prost::encoding::decode_varint`, which reads at most ten bytes, stops at
/// the first byte below 128, and fails where no such byte comes, where the
/// bytes run out, or where the tenth byte exceeds 1. Gives the value and the
/// number of bytes left after it.
#[verifier::external_body]
fn prost_decode_varint(bytes: &[u8]) -> (r: Option<(u64, usize)>)
    ensures
        r is None <==> varint_at(bytes@, 0) is None,
        r matches Some((v, rest)) ==> varint_at(bytes@, 0) == Some((v, bytes@.len() - rest)),
{
    let mut buf = bytes;
    match prost::encoding::decode_varint(&mut buf) {
        Ok(v) => Some((v, buf.len())),
        Err(_) => None,
    }
}

/// Reading a varint from a suffix of `s` is reading it from `s` at the
/// suffix's start.
proof fn lemma_varint_from_suffix(s: Seq<u8>, pos: int, k: nat)
    requires
        0 <= pos <= s.len(),
    ensures
        match (varint_from(s.subrange(pos, s.len() as int), 0, k), varint_from(s, pos, k)) {
            (Some((v1, e1)), Some((v2, e2))) => v1 == v2 && e2 == e1 + pos,
            (None, None) => true,
            _ => false,
        },
    decreases 10 - k,
{
    if k < 10 && pos + k < s.len() {
        lemma_varint_from_suffix(s, pos, k + 1);
    }
}

/// A varint ends after it starts and within the bytes.
proof fn lemma_varint_from_bounds(s: Seq<u8>, start: int, k: nat)
    ensures
        varint_from(s, start, k) matches Some((v, e)) ==> start + k < e <= s.len() && e <= start
            + 10 && 0 <= v,
    decreases 10 - k,
{
    if k < 10 && start >= 0 && start + k < s.len() {
        lemma_varint_from_bounds(s, start, k + 1);
    }
}

/// How large a varint's value may still be from its byte `k` on: 2 at the
/// tenth byte, 128 times more at each byte before.
pub open spec fn varint_room(k: nat) -> int
    decreases 9 - k,
{
    if k >= 9 {
        2
    } else {
        128 * varint_room((k + 1) as nat)
    }
}

/// The encoding of `w`, found at byte `k` of a varint, reads back as `w`.
proof fn lemma_varint_bytes_read(s: Seq<u8>, start: int, k: nat, w: u64)
    requires
        0 <= start,
        k <= 9,
        (w as int) < varint_room(k),
        start + k + varint_bytes(w).len() <= s.len(),
        s.subrange(start + k, start + k + varint_bytes(w).len()) == varint_bytes(w),
    ensures
        varint_from(s, start, k) == Some((w as int, start + k + varint_bytes(w).len())),
    decreases w,
{
    let b = varint_bytes(w);
    assert(s[start + k] == b[0]);
    if w < 128 {
        assert(b.len() == 1);
    } else {
        assert(k < 9);
        let w2 = (w / 128) as u64;
        assert(varint_room(k) == 128 * varint_room((k + 1) as nat));
        assert((w2 as int) < varint_room((k + 1) as nat)) by (nonlinear_arith)
            requires
                w2 == w / 128,
                (w as int) < 128 * varint_room((k + 1) as nat),
        ;
        let tail = varint_bytes(w2);
        assert(b =~= seq![(w % 128 + 128) as u8] + tail);
        assert(s.subrange(start + k + 1, start + k + 1 + tail.len()) =~= tail) by {
            assert forall|i: int| 0 <= i < tail.len() implies s.subrange(
                start + k + 1,
                start + k + 1 + tail.len(),
            )[i] == tail[i] by {
                assert(s.subrange(start + k, start + k + b.len())[i + 1] == b[i + 1]);
            }
        }
        lemma_varint_bytes_read(s, start, (k + 1) as nat, w2);
        assert(w % 128 + 128 * (w / 128) == w);
    }
}

/// A varint's encoding reads back as its value, wherever it stands.
pub proof fn lemma_varint_round_trip(prefix: Seq<u8>, v: u64, rest: Seq<u8>)
    ensures
        varint_at(prefix + varint_bytes(v) + rest, prefix.len() as int) == Some(
            (v, (prefix.len() + varint_bytes(v).len()) as int),
        ),
{
    let s = prefix + varint_bytes(v) + rest;
    reveal_with_fuel(varint_room, 10);
    assert(varint_room(0) == 0x1_0000_0000_0000_0000int);
    assert(s.subrange(prefix.len() as int, (prefix.len() + varint_bytes(v).len()) as int) =~= varint_bytes(
        v,
    ));
    lemma_varint_bytes_read(s, prefix.len() as int, 0, v);
}

/// A varint's encoding is one to ten bytes long.
pub proof fn lemma_varint_bytes_len(v: u64)
    ensures
        1 <= varint_bytes(v).len() <= 10,
{
    let e: Seq<u8> = Seq::empty();
    lemma_varint_round_trip(e, v, e);
    lemma_varint_from_bounds(e + varint_bytes(v) + e, 0, 0);
}

/// Reads the varint at `pos` in `s`: its value and the position after it.
pub fn read_varint(s: &[u8], pos: usize) -> (r: Option<(u64, usize)>)
    requires
        pos <= s@.len(),
    ensures
        match r {
            Some((v, e)) => varint_at(s@, pos as int) == Some((v, e as int)) && pos < e <= s@.len(),
            None => varint_at(s@, pos as int) is None,
        },
{
    let sub = &s[pos..s.len()];
    proof {
        lemma_varint_from_suffix(s@, pos as int, 0);
        lemma_varint_from_bounds(s@, pos as int, 0);
        lemma_varint_from_bounds(sub@, 0, 0);
    }
    match prost_decode_varint(sub) {
        Some((v, rest)) => Some((v, s.len() - rest)),
        None => None,
    }
}

/// Appends the varint encoding of `value`.
pub fn push_varint(buf: &mut Vec<u8>, value: u64)
    ensures
        final(buf)@ == old(buf)@ + varint_bytes(value),
{
    prost_encode_varint(value, buf)
}

/// Appends bytes.
pub fn push_bytes(buf: &mut Vec<u8>, bytes: &[u8])
    ensures
        final(buf)@ == old(buf)@ + bytes@,
{
    let ghost start = buf@;
    let mut i: usize = 0;
    while i < bytes.len()
        invariant
            i <= bytes@.len(),
            buf@ == start + bytes@.subrange(0, i as int),
        decreases bytes@.len() - i,
    {
        buf.push(bytes[i]);
        i = i + 1;
        assert(bytes@.subrange(0, i as int) == bytes@.subrange(0, i - 1).push(bytes@[i - 1]));
    }
    assert(bytes@.subrange(0, i as int) == bytes@);
}


// ---------------------------------------------------------------------------
// Field keys and skipping unknown fields
// ---------------------------------------------------------------------------

/// How deep groups of unknown fields may nest before decoding gives up.
pub const RECURSION_LIMIT: u64 = 100;

/// How deep groups of unknown fields may nest before decoding gives up.
pub open spec fn recursion_limit() -> nat {
    RECURSION_LIMIT as nat
}

/// The field number, wire type and end of the field key at `pos`: a varint
/// of at most 32 bits whose low three bits are a wire type from 0 to 5 and
/// whose other bits are a field number of at least 1.
pub open spec fn key_at(s: Seq<u8>, pos: int) -> Option<(u64, u64, int)> {
    match varint_at(s, pos) {
        Some((k, e)) => if k > 0xffff_ffff || k % 8 > 5 || k / 8 == 0 {
            None
        } else {
            Some((k / 8, k % 8, e))
        },
        None => None,
    }
}

/// Where the value of a field with the given wire type and number ends, when
/// it starts at `pos` and may still open `depth` levels of groups; `None`
/// where it is malformed or runs past the bytes.
pub open spec fn skip_value(s: Seq<u8>, pos: int, wire: u64, tag: u64, depth: nat) -> Option<int>
    decreases depth, s.len() - pos, 1int,
{
    if depth == 0 {
        None
    } else if wire == 0 {
        match varint_at(s, pos) {
            Some((_, e)) => Some(e),
            None => None,
        }
    } else if wire == 1 {
        if pos + 8 <= s.len() {
            Some(pos + 8)
        } else {
            None
        }
    } else if wire == 2 {
        match varint_at(s, pos) {
            Some((len, e)) => if len <= s.len() - e {
                Some(e + len)
            } else {
                None
            },
            None => None,
        }
    } else if wire == 3 {
        skip_group(s, pos, tag, depth)
    } else if wire == 5 {
        if pos + 4 <= s.len() {
            Some(pos + 4)
        } else {
            None
        }
    } else {
        None
    }
}

/// Where a group with the given field number ends, when its fields start at
/// `pos`: after the end-group key of the same number.
pub open spec fn skip_group(s: Seq<u8>, pos: int, tag: u64, depth: nat) -> Option<int>
    decreases depth, s.len() - pos, 0int,
{
    if depth == 0 {
        None
    } else {
        match key_at(s, pos) {
            None => None,
            Some((t, w, p)) => if w == 4 {
                if t == tag {
                    Some(p)
                } else {
                    None
                }
            } else {
                match skip_value(s, p, w, t, (depth - 1) as nat) {
                    Some(q) => if pos < q <= s.len() {
                        skip_group(s, q, tag, depth)
                    } else {
                        None
                    },
                    None => None,
                }
            },
        }
    }
}

/// Reads the field key at `pos`: the field number, the wire type and the
/// position after the key.
pub fn read_key(s: &[u8], pos: usize) -> (r: Option<(u64, u64, usize)>)
    requires
        pos <= s@.len(),
    ensures
        match r {
            Some((t, w, e)) => key_at(s@, pos as int) == Some((t, w, e as int)) && pos < e <= s@.len(),
            None => key_at(s@, pos as int) is None,
        },
{
    match read_varint(s, pos) {
        Some((k, e)) => {
            if k > 0xffff_ffff || k % 8 > 5 || k / 8 == 0 {
                None
            } else {
                Some((k / 8, k % 8, e))
            }
        },
        None => None,
    }
}

/// Skips the value of an unknown field, as [`skip_value`] says.
pub fn skip_field_value(s: &[u8], pos: usize, wire: u64, tag: u64, depth: u64) -> (r: Option<
    usize,
>)
    requires
        pos <= s@.len(),
    ensures
        match r {
            Some(e) => skip_value(s@, pos as int, wire, tag, depth as nat) == Some(e as int) && pos <= e
                <= s@.len(),
            None => skip_value(s@, pos as int, wire, tag, depth as nat) is None,
        },
    decreases depth, s@.len() - pos, 1int,
{
    if depth == 0 {
        None
    } else if wire == 0 {
        match read_varint(s, pos) {
            Some((_, e)) => Some(e),
            None => None,
        }
    } else if wire == 1 {
        if s.len() - pos >= 8 {
            Some(pos + 8)
        } else {
            None
        }
    } else if wire == 2 {
        match read_varint(s, pos) {
            Some((len, e)) => {
                if len <= (s.len() - e) as u64 {
                    Some(e + len as usize)
                } else {
                    None
                }
            },
            None => None,
        }
    } else if wire == 3 {
        skip_group_fields(s, pos, tag, depth)
    } else if wire == 5 {
        if s.len() - pos >= 4 {
            Some(pos + 4)
        } else {
            None
        }
    } else {
        None
    }
}

/// Skips the fields of a group up to and past its end-group key, as
/// [`skip_group`] says.
pub fn skip_group_fields(s: &[u8], pos: usize, tag: u64, depth: u64) -> (r: Option<usize>)
    requires
        pos <= s@.len(),
    ensures
        match r {
            Some(e) => skip_group(s@, pos as int, tag, depth as nat) == Some(e as int) && pos <= e
                <= s@.len(),
            None => skip_group(s@, pos as int, tag, depth as nat) is None,
        },
    decreases depth, s@.len() - pos, 0int,
{
    if depth == 0 {
        return None;
    }
    match read_key(s, pos) {
        None => None,
        Some((t, w, p)) => {
            if w == 4 {
                if t == tag {
                    Some(p)
                } else {
                    None
                }
            } else {
                match skip_field_value(s, p, w, t, depth - 1) {
                    Some(q) => {
                        if pos < q {
                            skip_group_fields(s, q, tag, depth)
                        } else {
                            None
                        }
                    },
                    None => None,
                }
            }
        },
    }
}


// ---------------------------------------------------------------------------
// Encoding the query
// ---------------------------------------------------------------------------

/// The key of a field: its number and wire type as one varint.
pub open spec fn key_bytes(tag: u64, wire: u64) -> Seq<u8> {
    varint_bytes((tag * 8 + wire) as u64)
}

/// A length-delimited field: key, length, payload.
pub open spec fn len_field(tag: u64, payload: Seq<u8>) -> Seq<u8> {
    key_bytes(tag, 2) + varint_bytes(payload.len() as u64) + payload
}

/// A varint field: key and value.
pub open spec fn varint_field(tag: u64, v: u64) -> Seq<u8> {
    key_bytes(tag, 0) + varint_bytes(v)
}

/// `b` where `c` holds, nothing otherwise: a field is left out where it has
/// its default value.
pub open spec fn present(c: bool, b: Seq<u8>) -> Seq<u8> {
    if c {
        b
    } else {
        Seq::empty()
    }
}

/// The encoding of a [`Timestamp`]: `int64 seconds = 1; int32 nanos = 2;`.
pub open spec fn timestamp_encoding(t: Timestamp) -> Seq<u8> {
    present(t.seconds != 0, varint_field(1, t.seconds as u64)) + present(
        t.nanos != 0,
        varint_field(2, t.nanos as u64),
    )
}

/// The encoding of an [`ArithmeticTwapToNowRequest`]: `uint64 pool_id = 1;
/// string base_asset = 2; string quote_asset = 3; Timestamp start_time = 4;`.
pub open spec fn twap_request_encoding(
    pool_id: u64,
    base_asset: Seq<char>,
    quote_asset: Seq<char>,
    start_time: Option<Timestamp>,
) -> Seq<u8> {
    present(pool_id != 0, varint_field(1, pool_id)) + present(
        base_asset.len() != 0,
        len_field(2, encode_utf8(base_asset)),
    ) + present(quote_asset.len() != 0, len_field(3, encode_utf8(quote_asset))) + match start_time {
        Some(t) => len_field(4, timestamp_encoding(t)),
        None => Seq::empty(),
    }
}

/// The encoding of an ABCI query request: `bytes data = 1; string path = 2;
/// int64 height = 3; bool prove = 4;`.
pub open spec fn abci_request_encoding(
    data: Seq<u8>,
    path: Seq<char>,
    height: i64,
    prove: bool,
) -> Seq<u8> {
    present(data.len() != 0, len_field(1, data)) + present(
        path.len() != 0,
        len_field(2, encode_utf8(path)),
    ) + present(height != 0, varint_field(3, height as u64)) + present(prove, varint_field(4, 1))
}

/// The encoding of a [`CosmosQuery`] whose requests encode to the given
/// bytes: `repeated RequestQuery requests = 1;`.
pub open spec fn cosmos_query_encoding(requests: Seq<Seq<u8>>) -> Seq<u8>
    decreases requests.len(),
{
    if requests.len() == 0 {
        Seq::empty()
    } else {
        cosmos_query_encoding(requests.drop_last()) + len_field(1, requests.last())
    }
}

/// Appends a field key.
pub fn push_key(buf: &mut Vec<u8>, tag: u64, wire: u64)
    requires
        tag <= 0x1fff_ffff,
        wire <= 7,
    ensures
        final(buf)@ == old(buf)@ + key_bytes(tag, wire),
{
    push_varint(buf, tag * 8 + wire)
}

/// Appends a length-delimited field.
pub fn push_len_field(buf: &mut Vec<u8>, tag: u64, payload: &[u8])
    requires
        tag <= 0x1fff_ffff,
    ensures
        final(buf)@ == old(buf)@ + len_field(tag, payload@),
{
    push_key(buf, tag, 2);
    push_varint(buf, payload.len() as u64);
    push_bytes(buf, payload);
    assert(final(buf)@ =~= old(buf)@ + len_field(tag, payload@));
}

/// Appends a varint field.
pub fn push_varint_field(buf: &mut Vec<u8>, tag: u64, v: u64)
    requires
        tag <= 0x1fff_ffff,
    ensures
        final(buf)@ == old(buf)@ + varint_field(tag, v),
{
    push_key(buf, tag, 0);
    push_varint(buf, v);
    assert(final(buf)@ =~= old(buf)@ + varint_field(tag, v));
}

impl Timestamp {
    /// The protobuf encoding of the timestamp.
    pub fn encode_to_vec(&self) -> (r: Vec<u8>)
        ensures
            r@ == timestamp_encoding(*self),
    {
        let mut buf: Vec<u8> = Vec::new();
        if self.seconds != 0 {
            push_varint_field(&mut buf, 1, self.seconds as u64);
        }
        if self.nanos != 0 {
            push_varint_field(&mut buf, 2, self.nanos as u64);
        }
        assert(buf@ =~= timestamp_encoding(*self));
        buf
    }
}

impl ArithmeticTwapToNowRequest {
    /// The protobuf encoding of the request.
    pub fn encode_to_vec(&self) -> (r: Vec<u8>)
        ensures
            r@ == twap_request_encoding(
                self.pool_id,
                self.base_asset@,
                self.quote_asset@,
                self.start_time,
            ),
    {
        let mut buf: Vec<u8> = Vec::new();
        if self.pool_id != 0 {
            push_varint_field(&mut buf, 1, self.pool_id);
        }
        let base = self.base_asset.as_str();
        if !base.is_empty() {
            push_len_field(&mut buf, 2, base.as_bytes());
        }
        let quote = self.quote_asset.as_str();
        if !quote.is_empty() {
            push_len_field(&mut buf, 3, quote.as_bytes());
        }
        match &self.start_time {
            Some(t) => {
                let inner = t.encode_to_vec();
                push_len_field(&mut buf, 4, inner.as_slice());
            },
            None => {},
        }
        assert(buf@ =~= twap_request_encoding(
            self.pool_id,
            self.base_asset@,
            self.quote_asset@,
            self.start_time,
        ));
        buf
    }
}

/// Encodes an ABCI query request with the `prost::Message` encoding of
/// `cosmos_sdk_proto`'s `AbciQueryRequest`, which writes `data` (field 1,
/// bytes), `path` (field 2, string), `height` (field 3, int64) and `prove`
/// (field 4, bool) in that order, each only where it differs from its default.
#[verifier::external_body]
fn prost_encode_abci_query_request(request: &AbciQueryRequest) -> (r: Vec<u8>)
    ensures
        r@ == abci_request_encoding(request.data@, request.path@, request.height, request.prove),
{
    cosmos_sdk_proto::cosmos::base::tendermint::v1beta1::AbciQueryRequest {
        data: request.data.clone(),
        path: request.path.clone(),
        height: request.height,
        prove: request.prove,
    }.encode_to_vec()
}

impl AbciQueryRequest {
    /// The protobuf encoding of the request.
    pub fn encode_to_vec(&self) -> (r: Vec<u8>)
        ensures
            r@ == abci_request_encoding(self.data@, self.path@, self.height, self.prove),
    {
        prost_encode_abci_query_request(self)
    }
}

/// The encodings of a list of ABCI query requests.
pub open spec fn requests_encodings(requests: Seq<AbciQueryRequest>) -> Seq<Seq<u8>> {
    requests.map_values(
        |r: AbciQueryRequest| abci_request_encoding(r.data@, r.path@, r.height, r.prove),
    )
}

impl CosmosQuery {
    /// The protobuf encoding of the query.
    pub fn encode_to_vec(&self) -> (r: Vec<u8>)
        ensures
            r@ == cosmos_query_encoding(requests_encodings(self.requests@)),
    {
        let mut buf: Vec<u8> = Vec::new();
        let mut i: usize = 0;
        while i < self.requests.len()
            invariant
                i <= self.requests@.len(),
                buf@ == cosmos_query_encoding(
                    requests_encodings(self.requests@).subrange(0, i as int),
                ),
            decreases self.requests@.len() - i,
        {
            let enc = self.requests[i].encode_to_vec();
            push_len_field(&mut buf, 1, enc.as_slice());
            i = i + 1;
            assert(requests_encodings(self.requests@).subrange(0, i as int).drop_last()
                =~= requests_encodings(self.requests@).subrange(0, i - 1));
        }
        assert(requests_encodings(self.requests@).subrange(0, i as int) =~= requests_encodings(
            self.requests@,
        ));
        buf
    }
}


// ---------------------------------------------------------------------------
// Decoding the answer
// ---------------------------------------------------------------------------

/// The encoding of an `ArithmeticTwapToNowResponse` holding `text`: the
/// field is left out where the text is empty.
pub open spec fn twap_response_encoding(text: Seq<char>) -> Seq<u8> {
    present(text.len() != 0, len_field(1, encode_utf8(text)))
}

/// The encoding of an ABCI query response whose only field is `value`.
pub open spec fn abci_response_encoding(value: Seq<u8>) -> Seq<u8> {
    present(value.len() != 0, len_field(7, value))
}

/// The encoding of a `CosmosResponse` whose responses encode to the given
/// bytes: like a [`CosmosQuery`], a repeated message in field 1.
pub open spec fn cosmos_response_encoding(responses: Seq<Seq<u8>>) -> Seq<u8> {
    cosmos_query_encoding(responses)
}

/// A length-delimited field with a one-byte key reads back as its number,
/// its wire type, its length and its payload.
pub proof fn lemma_len_field_read(prefix: Seq<u8>, tag: u64, payload: Seq<u8>, rest: Seq<u8>)
    requires
        1 <= tag < 16,
        payload.len() <= 0xffff_ffff_ffff_ffff,
    ensures
        ({
            let s = prefix + len_field(tag, payload) + rest;
            let p0 = prefix.len() as int;
            let vl = varint_bytes(payload.len() as u64).len() as int;
            &&& key_at(s, p0) == Some((tag, 2u64, p0 + 1))
            &&& varint_at(s, p0 + 1) == Some((payload.len() as u64, p0 + 1 + vl))
            &&& s.subrange(p0 + 1 + vl, p0 + 1 + vl + payload.len()) == payload
            &&& p0 + 1 + vl + payload.len() == prefix.len() + len_field(tag, payload).len()
        }),
{
    let s = prefix + len_field(tag, payload) + rest;
    let p0 = prefix.len() as int;
    let key = (tag * 8 + 2) as u64;
    lemma_varint_bytes_len(payload.len() as u64);
    assert(varint_bytes(key) == seq![key as u8]);
    let vb = varint_bytes(payload.len() as u64);
    assert(s =~= prefix + varint_bytes(key) + (vb + payload + rest));
    lemma_varint_round_trip(prefix, key, vb + payload + rest);
    assert(s =~= (prefix + seq![key as u8]) + vb + (payload + rest));
    lemma_varint_round_trip(prefix + seq![key as u8], payload.len() as u64, payload + rest);
    assert(s.subrange(p0 + 1 + vb.len(), p0 + 1 + vb.len() + payload.len()) =~= payload);
}

/// The `value` field of the ABCI query response whose length-delimited
/// encoding (its length as a varint, then its fields) is `framed`, as
/// `prost` decodes it; `None` where it does not decode.
pub uninterp spec fn abci_response_value(framed: Seq<u8>) -> Option<Seq<u8>>;

/// Whether `framed` is the length-delimited encoding of a response whose only
/// field is `value`, holding `b`.
pub open spec fn only_value_field(framed: Seq<u8>, b: Seq<u8>) -> bool {
    framed == varint_bytes(len_field(7, b).len() as u64) + len_field(7, b)
}

/// Decodes a length-delimited `cosmos_sdk_proto` `AbciQueryResponse` with
/// `prost::Message::decode_length_delimited` and keeps its `value` field
/// (field 7, bytes). The result is named by [`abci_response_value`]; of it
/// this states one fact that the message's definition shows: a response
/// whose only field is `value` decodes to that value.
#[verifier::external_body]
fn prost_decode_abci_query_response(framed: &[u8]) -> (r: Option<Vec<u8>>)
    ensures
        r is None <==> abci_response_value(framed@) is None,
        r matches Some(v) ==> abci_response_value(framed@) == Some(v@),
        forall|b: Seq<u8>| #[trigger] only_value_field(framed@, b) ==> r is Some && r.unwrap()@ == b,
{
    match cosmos_sdk_proto::cosmos::base::tendermint::v1beta1::AbciQueryResponse::decode_length_delimited(framed) {
        Ok(response) => Some(response.value),
        Err(_) => None,
    }
}

/// The `value` fields of the responses in an encoded `CosmosResponse`
/// (`repeated ResponseQuery responses = 1;`) from `pos` on: every field 1
/// must be length-delimited and decode as a response; other fields are
/// skipped; `None` where anything is malformed.
pub open spec fn cosmos_response_values(s: Seq<u8>, pos: int) -> Option<Seq<Seq<u8>>>
    decreases s.len() - pos,
{
    if pos >= s.len() {
        Some(Seq::empty())
    } else {
        match key_at(s, pos) {
            None => None,
            Some((tag, wire, p)) => if tag == 1 {
                if wire != 2 {
                    None
                } else {
                    match varint_at(s, p) {
                        None => None,
                        Some((len, e)) => if len > s.len() - e || e + len <= pos {
                            None
                        } else {
                            match abci_response_value(s.subrange(p, e + len)) {
                                None => None,
                                Some(v) => match cosmos_response_values(s, e + len) {
                                    Some(rest) => Some(seq![v] + rest),
                                    None => None,
                                },
                            }
                        },
                    }
                }
            } else {
                match skip_value(s, p, wire, tag, recursion_limit()) {
                    Some(q) => if pos < q <= s.len() {
                        cosmos_response_values(s, q)
                    } else {
                        None
                    },
                    None => None,
                }
            },
        }
    }
}

/// The views of a list of byte strings.
pub open spec fn byte_strings_view(v: Seq<Vec<u8>>) -> Seq<Seq<u8>> {
    v.map_values(|b: Vec<u8>| b@)
}

/// Decodes an encoded `CosmosResponse` into the `value` fields of its
/// responses, in order.
pub fn decode_cosmos_response(s: &[u8]) -> (r: Option<Vec<Vec<u8>>>)
    ensures
        match r {
            Some(v) => cosmos_response_values(s@, 0) == Some(byte_strings_view(v@)),
            None => cosmos_response_values(s@, 0) is None,
        },
{
    let mut values: Vec<Vec<u8>> = Vec::new();
    let mut pos: usize = 0;
    while pos < s.len()
        invariant
            pos <= s@.len(),
            cosmos_response_values(s@, 0) == match cosmos_response_values(s@, pos as int) {
                Some(rest) => Some(byte_strings_view(values@) + rest),
                None => None,
            },
        decreases s@.len() - pos,
    {
        let ghost vs = byte_strings_view(values@);
        match read_key(s, pos) {
            None => {
                return None;
            },
            Some((tag, wire, p)) => {
                if tag == 1 {
                    if wire != 2 {
                        return None;
                    }
                    match read_varint(s, p) {
                        None => {
                            return None;
                        },
                        Some((len, e)) => {
                            if len > (s.len() - e) as u64 {
                                return None;
                            }
                            let end = e + len as usize;
                            let framed = &s[p..end];
                            match prost_decode_abci_query_response(framed) {
                                None => {
                                    return None;
                                },
                                Some(v) => {
                                    values.push(v);
                                    assert(byte_strings_view(values@) =~= vs.push(
                                        values@.last()@,
                                    ));
                                    pos = end;
                                },
                            }
                        },
                    }
                } else {
                    match skip_field_value(s, p, wire, tag, RECURSION_LIMIT) {
                        None => {
                            return None;
                        },
                        Some(q) => {
                            pos = q;
                        },
                    }
                }
            },
        }
    }
    assert(byte_strings_view(values@) + Seq::<Seq<u8>>::empty() =~= byte_strings_view(values@));
    Some(values)
}

/// The text of the last `arithmetic_twap` field (`string arithmetic_twap =
/// 1;`) of an encoded `ArithmeticTwapToNowResponse` from `pos` on, `current`
/// if none comes: every field 1 must be length-delimited and valid UTF-8;
/// other fields are skipped; `None` where anything is malformed.
pub open spec fn twap_response_text(s: Seq<u8>, pos: int, current: Seq<char>) -> Option<Seq<char>>
    decreases s.len() - pos,
{
    if pos >= s.len() {
        Some(current)
    } else {
        match key_at(s, pos) {
            None => None,
            Some((tag, wire, p)) => if tag == 1 {
                if wire != 2 {
                    None
                } else {
                    match varint_at(s, p) {
                        None => None,
                        Some((len, e)) => if len > s.len() - e || e + len <= pos {
                            None
                        } else if !valid_utf8(s.subrange(e, e + len)) {
                            None
                        } else {
                            twap_response_text(s, e + len, decode_utf8(s.subrange(e, e + len)))
                        },
                    }
                }
            } else {
                match skip_value(s, p, wire, tag, recursion_limit()) {
                    Some(q) => if pos < q <= s.len() {
                        twap_response_text(s, q, current)
                    } else {
                        None
                    },
                    None => None,
                }
            },
        }
    }
}

/// Decodes an encoded `ArithmeticTwapToNowResponse`.
pub fn decode_twap_response(s: &[u8]) -> (r: Option<ArithmeticTwapToNowResponse>)
    ensures
        match r {
            Some(t) => twap_response_text(s@, 0, Seq::empty()) == Some(t.arithmetic_twap@),
            None => twap_response_text(s@, 0, Seq::empty()) is None,
        },
{
    let mut current = String::new();
    let mut pos: usize = 0;
    while pos < s.len()
        invariant
            pos <= s@.len(),
            twap_response_text(s@, 0, Seq::empty()) == twap_response_text(
                s@,
                pos as int,
                current@,
            ),
        decreases s@.len() - pos,
    {
        match read_key(s, pos) {
            None => {
                return None;
            },
            Some((tag, wire, p)) => {
                if tag == 1 {
                    if wire != 2 {
                        return None;
                    }
                    match read_varint(s, p) {
                        None => {
                            return None;
                        },
                        Some((len, e)) => {
                            if len > (s.len() - e) as u64 {
                                return None;
                            }
                            let end = e + len as usize;
                            match utf8_to_string(&s[e..end]) {
                                None => {
                                    return None;
                                },
                                Some(text) => {
                                    current = text;
                                    pos = end;
                                },
                            }
                        },
                    }
                } else {
                    match skip_field_value(s, p, wire, tag, RECURSION_LIMIT) {
                        None => {
                            return None;
                        },
                        Some(q) => {
                            pos = q;
                        },
                    }
                }
            },
        }
    }
    Some(ArithmeticTwapToNowResponse { arithmetic_twap: current })
}

} // verus!
