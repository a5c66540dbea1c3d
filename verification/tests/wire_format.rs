use muffin::msg::{
    AbciQueryRequest, ArithmeticTwapToNowRequest, ArithmeticTwapToNowResponse, CosmosQuery,
    Timestamp,
};
use muffin::proto::{
    decode_cosmos_response, decode_twap_response, push_varint, read_key, read_varint,
    skip_field_value,
};
use muffin::text::{str_eq, u64_to_decimal};

use cosmos_sdk_proto::cosmos::base::tendermint::v1beta1::{
    AbciQueryRequest as ProtoRequest, AbciQueryResponse,
};
use prost::Message;

#[test]
fn varints_are_written_seven_bits_a_byte() {
    let mut buf = Vec::new();
    push_varint(&mut buf, 300);
    assert_eq!(buf, vec![172, 2]);
    let mut buf = vec![9];
    push_varint(&mut buf, u64::MAX);
    assert_eq!(buf, vec![9, 255, 255, 255, 255, 255, 255, 255, 255, 255, 1]);
}

#[test]
fn varints_read_back() {
    assert_eq!(read_varint(&[7, 172, 2, 5], 1), Some((300, 3)));
    assert_eq!(read_varint(&[0x7f], 0), Some((127, 1)));
    // runs out
    assert_eq!(read_varint(&[0x80, 0x80], 0), None);
    // tenth byte too large
    assert_eq!(read_varint(&[255, 255, 255, 255, 255, 255, 255, 255, 255, 2], 0), None);
    assert_eq!(
        read_varint(&[255, 255, 255, 255, 255, 255, 255, 255, 255, 1], 0),
        Some((u64::MAX, 10))
    );
    // non-minimal encodings are accepted
    assert_eq!(read_varint(&[0x81, 0x00], 0), Some((1, 2)));
}

#[test]
fn keys_are_checked() {
    assert_eq!(read_key(&[0x0a], 0), Some((1, 2, 1)));
    assert_eq!(read_key(&[0x02], 0), None); // field number 0
    assert_eq!(read_key(&[0x0e], 0), None); // wire type 6
}

#[test]
fn unknown_fields_are_skipped() {
    // varint, 64-bit, 32-bit and length-delimited values
    assert_eq!(skip_field_value(&[0x96, 0x01, 9], 0, 0, 5, 100), Some(2));
    assert_eq!(skip_field_value(&[0; 8], 0, 1, 5, 100), Some(8));
    assert_eq!(skip_field_value(&[0; 7], 0, 1, 5, 100), None);
    assert_eq!(skip_field_value(&[0; 4], 0, 5, 5, 100), Some(4));
    assert_eq!(skip_field_value(&[2, 1, 1, 4], 0, 2, 5, 100), Some(3));
    assert_eq!(skip_field_value(&[3, 1, 1], 0, 2, 5, 100), None);
    // a group of field 5 holding a varint field 1, ended by its end-group key
    assert_eq!(skip_field_value(&[0x08, 0x01, 0x2c], 0, 3, 5, 100), Some(3));
    // ended by the end-group key of another field
    assert_eq!(skip_field_value(&[0x08, 0x01, 0x34], 0, 3, 5, 100), None);
    // an end-group key alone, and a spent recursion limit
    assert_eq!(skip_field_value(&[], 0, 4, 5, 100), None);
    assert_eq!(skip_field_value(&[0x01], 0, 0, 5, 0), None);
}

#[test]
fn twap_request_encoding_matches_the_schema() {
    let request = ArithmeticTwapToNowRequest {
        pool_id: 300,
        base_asset: "é".to_string(),
        quote_asset: String::new(),
        start_time: Some(Timestamp { seconds: 1, nanos: -1 }),
    };
    let mut expected = vec![0x08, 172, 2, 0x12, 2, 0xc3, 0xa9, 0x22, 13, 0x08, 1, 0x10];
    expected.extend_from_slice(&[255, 255, 255, 255, 255, 255, 255, 255, 255, 1]);
    assert_eq!(request.encode_to_vec(), expected);
    let empty = ArithmeticTwapToNowRequest {
        pool_id: 0,
        base_asset: String::new(),
        quote_asset: String::new(),
        start_time: Some(Timestamp { seconds: 0, nanos: 0 }),
    };
    assert_eq!(empty.encode_to_vec(), vec![0x22, 0]);
}

#[test]
fn cosmos_query_wraps_each_request() {
    let request = AbciQueryRequest {
        data: vec![1, 2, 3],
        path: "/p".to_string(),
        height: 5,
        prove: true,
    };
    let single = request.encode_to_vec();
    assert_eq!(single, vec![0x0a, 3, 1, 2, 3, 0x12, 2, b'/', b'p', 0x18, 5, 0x20, 1]);
    let proto = ProtoRequest { data: vec![1, 2, 3], path: "/p".to_string(), height: 5, prove: true };
    assert_eq!(single, proto.encode_to_vec());
    let query = CosmosQuery { requests: vec![request.clone(), request] };
    let mut expected = vec![0x0a, 13];
    expected.extend_from_slice(&single);
    expected.push(0x0a);
    expected.push(13);
    expected.extend_from_slice(&single);
    assert_eq!(query.encode_to_vec(), expected);
    assert_eq!(CosmosQuery { requests: Vec::new() }.encode_to_vec(), Vec::<u8>::new());
}

#[test]
fn cosmos_responses_decode_in_order() {
    let first = AbciQueryResponse { value: vec![1, 2], code: 3, ..Default::default() }.encode_to_vec();
    let second = AbciQueryResponse { value: vec![9], ..Default::default() }.encode_to_vec();
    let mut bytes = vec![0x0a, first.len() as u8];
    bytes.extend_from_slice(&first);
    // an unknown varint field in between
    bytes.extend_from_slice(&[0x10, 0x05]);
    bytes.push(0x0a);
    bytes.push(second.len() as u8);
    bytes.extend_from_slice(&second);
    assert_eq!(decode_cosmos_response(&bytes), Some(vec![vec![1, 2], vec![9]]));
    assert_eq!(decode_cosmos_response(&[]), Some(Vec::new()));
    // field 1 with the wrong wire type
    assert_eq!(decode_cosmos_response(&[0x08, 0x01]), None);
    // a response that is itself malformed
    assert_eq!(decode_cosmos_response(&[0x0a, 0x01, 0x3a]), None);
}

#[test]
fn twap_response_keeps_the_last_text() {
    assert_eq!(decode_twap_response(&[0x0a, 1, b'5']).map(|r| r.arithmetic_twap), Some("5".to_string()));
    assert_eq!(
        decode_twap_response(&[0x0a, 1, b'5', 0x18, 1, 0x0a, 2, b'4', b'2']),
        Some(ArithmeticTwapToNowResponse { arithmetic_twap: "42".to_string() })
    );
    assert_eq!(
        decode_twap_response(&[]),
        Some(ArithmeticTwapToNowResponse { arithmetic_twap: String::new() })
    );
    assert_eq!(decode_twap_response(&[0x0a, 1, 0xff]), None);
    assert_eq!(decode_twap_response(&[0x0a, 1, 0xc3]), None);
    assert_eq!(
        decode_twap_response(&[0x0a, 2, 0xc3, 0xa9]),
        Some(ArithmeticTwapToNowResponse { arithmetic_twap: "é".to_string() })
    );
    assert_eq!(decode_twap_response(&[0x0a, 5, b'1']), None);
}

#[test]
fn text_helpers() {
    assert_eq!(u64_to_decimal(0), "0");
    assert_eq!(u64_to_decimal(1337), "1337");
    assert_eq!(u64_to_decimal(u64::MAX), "18446744073709551615");
    assert!(str_eq("icq-1", "icq-1"));
    assert!(!str_eq("icq-1", "icq-2"));
}
