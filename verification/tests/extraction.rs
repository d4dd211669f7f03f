use withdrawal_index_reporter::block_details_request;
use withdrawal_index_reporter::block_number_request;
use withdrawal_index_reporter::extract_highest_validator_index;
use withdrawal_index_reporter::get_highest_validator_index;
use withdrawal_index_reporter::hex::decode_hex_u64;
use withdrawal_index_reporter::latest_block_number_from_response;
use withdrawal_index_reporter::parse_block_number_response;
use withdrawal_index_reporter::Error;
use withdrawal_index_reporter::Json;

fn record(index: &str) -> Json {
    Json::Obj(vec![("validatorIndex".to_string(), Json::Str(index.to_string()))])
}

fn block_with_withdrawals(withdrawals: Json) -> Json {
    Json::Obj(vec![(
        "result".to_string(),
        Json::Obj(vec![("withdrawals".to_string(), withdrawals)]),
    )])
}

#[test]
fn maximum_over_three_records() {
    let block = block_with_withdrawals(Json::Arr(vec![
        record("0x1"),
        record("0xff"),
        record("0x10"),
    ]));
    assert_eq!(extract_highest_validator_index(&block), Ok(255));
}

#[test]
fn maximum_end_to_end_from_text() {
    let body = r#"{"result":{"withdrawals":[{"validatorIndex":"0x1"},{"validatorIndex":"0xff"},{"validatorIndex":"0x10"}]}}"#;
    assert_eq!(get_highest_validator_index(body), Ok(255));
}

#[test]
fn maximum_is_order_independent() {
    let block = block_with_withdrawals(Json::Arr(vec![
        record("0xff"),
        record("0x1"),
        record("0x10"),
    ]));
    assert_eq!(extract_highest_validator_index(&block), Ok(255));
}

#[test]
fn single_record() {
    let block = block_with_withdrawals(Json::Arr(vec![record("0x0")]));
    assert_eq!(extract_highest_validator_index(&block), Ok(0));
}

#[test]
fn empty_withdrawals_is_missing_data() {
    let block = block_with_withdrawals(Json::Arr(vec![]));
    assert_eq!(extract_highest_validator_index(&block), Err(Error::MissingData));
}

#[test]
fn absent_withdrawals_is_missing_data() {
    let block = Json::Obj(vec![("result".to_string(), Json::Obj(vec![]))]);
    assert_eq!(extract_highest_validator_index(&block), Err(Error::MissingData));
}

#[test]
fn absent_result_is_missing_data() {
    let block = Json::Obj(vec![]);
    assert_eq!(extract_highest_validator_index(&block), Err(Error::MissingData));
}

#[test]
fn withdrawals_not_a_sequence_is_missing_data() {
    let block = block_with_withdrawals(Json::Str("nope".to_string()));
    assert_eq!(extract_highest_validator_index(&block), Err(Error::MissingData));
}

#[test]
fn one_bad_record_fails_the_whole_block() {
    let block = block_with_withdrawals(Json::Arr(vec![
        record("0x1"),
        record("not-hex"),
        record("0xff"),
    ]));
    assert_eq!(extract_highest_validator_index(&block), Err(Error::Parse));
}

#[test]
fn record_without_index_fails_parse() {
    let block = block_with_withdrawals(Json::Arr(vec![Json::Obj(vec![])]));
    assert_eq!(extract_highest_validator_index(&block), Err(Error::Parse));
}

#[test]
fn record_with_non_string_index_fails_parse() {
    let block = block_with_withdrawals(Json::Arr(vec![Json::Obj(vec![(
        "validatorIndex".to_string(),
        Json::Num("26".to_string()),
    )])]));
    assert_eq!(extract_highest_validator_index(&block), Err(Error::Parse));
}

#[test]
fn malformed_block_text_fails_protocol() {
    assert_eq!(get_highest_validator_index("not json"), Err(Error::Protocol));
}

#[test]
fn decoding_is_case_insensitive_and_prefix_tolerant() {
    assert_eq!(decode_hex_u64("0x1a"), Some(26));
    assert_eq!(decode_hex_u64("1A"), Some(26));
    assert_eq!(decode_hex_u64("1a"), Some(26));
    assert_eq!(decode_hex_u64("0X1A"), None);
}

#[test]
fn decoding_rejects_empty_and_bad_digits() {
    assert_eq!(decode_hex_u64(""), None);
    assert_eq!(decode_hex_u64("0x"), None);
    assert_eq!(decode_hex_u64("0xg1"), None);
    assert_eq!(decode_hex_u64("-1"), None);
    assert_eq!(decode_hex_u64("+1"), None);
}

#[test]
fn decoding_bounds_of_u64() {
    assert_eq!(decode_hex_u64("0xffffffffffffffff"), Some(u64::MAX));
    assert_eq!(decode_hex_u64("0x10000000000000000"), None);
    assert_eq!(decode_hex_u64("0x0000000000000000000001"), Some(1));
}

#[test]
fn block_number_is_read_from_result() {
    let resp = Json::Obj(vec![("result".to_string(), Json::Str("0x10d4f".to_string()))]);
    assert_eq!(parse_block_number_response(&resp), Ok("0x10d4f".to_string()));
}

#[test]
fn missing_result_is_protocol_error() {
    let resp = Json::Obj(vec![("error".to_string(), Json::Str("boom".to_string()))]);
    assert_eq!(parse_block_number_response(&resp), Err(Error::Protocol));
}

#[test]
fn missing_result_in_text_is_protocol_error() {
    assert_eq!(latest_block_number_from_response("{}"), Err(Error::Protocol));
    assert_eq!(latest_block_number_from_response(r#"{"result":26}"#), Err(Error::Protocol));
}

#[test]
fn block_number_end_to_end_from_text() {
    let body = r#"{"jsonrpc":"2.0","id":1,"result":"0x10d4f"}"#;
    assert_eq!(latest_block_number_from_response(body), Ok("0x10d4f".to_string()));
}

#[test]
fn block_number_request_shape() {
    let r = block_number_request();
    assert_eq!(r.jsonrpc, "2.0");
    assert_eq!(r.method, "eth_blockNumber");
    assert_eq!(r.params, vec![]);
    assert_eq!(r.id, 1);
}

#[test]
fn block_details_request_shape() {
    let r = block_details_request("0x10d4f");
    assert_eq!(r.jsonrpc, "2.0");
    assert_eq!(r.method, "eth_getBlockByNumber");
    assert_eq!(
        r.params,
        vec![Json::Str("0x10d4f".to_string()), Json::Bool(true)]
    );
    assert_eq!(r.id, 1);
}

#[test]
fn error_messages() {
    assert_eq!(Error::Transport.message(), "network request failed");
    assert_eq!(Error::Protocol.message(), "failed to get block number");
    assert_eq!(Error::MissingData.message(), "no withdrawals in block");
    assert_eq!(Error::Parse.message(), "no valid validator index");
}

#[test]
fn first_binding_wins_on_duplicate_keys() {
    let block = Json::Obj(vec![
        (
            "result".to_string(),
            Json::Obj(vec![(
                "withdrawals".to_string(),
                Json::Arr(vec![record("0x2a")]),
            )]),
        ),
        ("result".to_string(), Json::Null),
    ]);
    assert_eq!(extract_highest_validator_index(&block), Ok(42));
}
