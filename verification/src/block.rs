//! The block pipeline: JSON-RPC requests, response parsing, and the
//! extraction of the highest validator withdrawal index.

use vstd::prelude::*;
use crate::hex::decode_hex_u64;
use crate::hex::spec_decode_index;
use crate::json::field;
use crate::json::json_field;
use crate::json::parse_text;
use crate::json::spec_parse_text;
use crate::json::Json;

verus! {

/// What can go wrong in one poll cycle.
///
/// `Transport` is produced by the surrounding program when a network call
/// fails; the library itself reports the other three.
#[derive(Clone, Copy, Debug, PartialEq, Eq, Structural)]
pub enum Error {
    /// A network call failed.
    Transport,
    /// A response payload lacks the expected `result` field, or it has the
    /// wrong type, or the payload is not well-formed JSON.
    Protocol,
    /// The block's `withdrawals` field is absent, not a sequence, or empty.
    MissingData,
    /// A withdrawal record's validator index cannot be decoded.
    Parse,
}

pub open spec fn spec_message(e: Error) -> Seq<char> {
    match e {
        Error::Transport => "network request failed"@,
        Error::Protocol => "failed to get block number"@,
        Error::MissingData => "no withdrawals in block"@,
        Error::Parse => "no valid validator index"@,
    }
}

impl Error {
    /// A short description, fit for a log line.
    pub fn message(&self) -> (m: String)
        ensures
            m@ == spec_message(*self),
    {
        match self {
            Error::Transport => "network request failed".to_owned(),
            Error::Protocol => "failed to get block number".to_owned(),
            Error::MissingData => "no withdrawals in block".to_owned(),
            Error::Parse => "no valid validator index".to_owned(),
        }
    }
}

/// One JSON-RPC call, ready to be serialised and posted to the node.
#[derive(Debug, PartialEq, Eq)]
pub struct JsonRpcRequest {
    pub jsonrpc: String,
    pub method: String,
    pub params: Vec<Json>,
    pub id: u64,
}

/// Builds the `eth_blockNumber` call: no parameters, protocol version `2.0`,
/// request id `1`.
pub fn block_number_request() -> (r: JsonRpcRequest)
    ensures
        r.jsonrpc@ == "2.0"@,
        r.method@ == "eth_blockNumber"@,
        r.params@ == Seq::<Json>::empty(),
        r.id == 1,
{
    JsonRpcRequest {
        jsonrpc: "2.0".to_owned(),
        method: "eth_blockNumber".to_owned(),
        params: Vec::new(),
        id: 1,
    }
}

/// Builds the `eth_getBlockByNumber` call for `block_number`: the number is
/// passed back verbatim, and the `true` flag asks for full transaction
/// objects.
pub fn block_details_request(block_number: &str) -> (r: JsonRpcRequest)
    ensures
        r.jsonrpc@ == "2.0"@,
        r.method@ == "eth_getBlockByNumber"@,
        r.params@.len() == 2,
        r.params@[0] matches Json::Str(s) && s@ == block_number@,
        r.params@[1] == Json::Bool(true),
        r.id == 1,
{
    JsonRpcRequest {
        jsonrpc: "2.0".to_owned(),
        method: "eth_getBlockByNumber".to_owned(),
        params: vec![Json::Str(block_number.to_owned()), Json::Bool(true)],
        id: 1,
    }
}

/// The block number that an `eth_blockNumber` response carries: its `result`
/// field, provided that field is a string.
pub open spec fn spec_block_number(resp: Json) -> Option<Seq<char>> {
    match json_field(resp, "result"@) {
        Some(r) => match r {
            Json::Str(s) => Some(s@),
            _ => None,
        },
        None => None,
    }
}

/// Reads the latest block number out of an `eth_blockNumber` response:
/// the string under `result`, or `Protocol` where it is absent or not a
/// string.
pub fn parse_block_number_response(resp: &Json) -> (r: Result<String, Error>)
    ensures
        match spec_block_number(*resp) {
            Some(s) => r matches Ok(b) && b@ == s,
            None => r == Err::<String, Error>(Error::Protocol),
        },
{
    match field(resp, "result") {
        Some(v) => match v {
            Json::Str(s) => Ok(s.clone()),
            _ => Err(Error::Protocol),
        },
        None => Err(Error::Protocol),
    }
}

/// The withdrawal records of a block response: the sequence under
/// `result.withdrawals`, provided it is one.
pub open spec fn spec_withdrawals(block: Json) -> Option<Seq<Json>> {
    match json_field(block, "result"@) {
        Some(r) => match json_field(r, "withdrawals"@) {
            Some(w) => match w {
                Json::Arr(ws) => Some(ws@),
                _ => None,
            },
            _ => None,
        },
        None => None,
    }
}

/// The index that a withdrawal record reports: its `validatorIndex` string,
/// decoded as hexadecimal; `None` where the field is absent, not a string,
/// or does not decode.
pub open spec fn spec_record_index(rec: Json) -> Option<u64> {
    match json_field(rec, "validatorIndex"@) {
        Some(v) => match v {
            Json::Str(s) => spec_decode_index(s@),
            _ => None,
        },
        None => None,
    }
}

pub open spec fn all_indices_valid(ws: Seq<Json>) -> bool {
    forall|i: int| 0 <= i < ws.len() ==> (#[trigger] spec_record_index(ws[i])) is Some
}

pub open spec fn index_at(ws: Seq<Json>, i: int) -> u64 {
    match spec_record_index(ws[i]) {
        Some(v) => v,
        None => 0,
    }
}

/// `m` is attained by some record and no record exceeds it.
pub open spec fn is_max_index(ws: Seq<Json>, m: u64) -> bool {
    &&& exists|i: int| 0 <= i < ws.len() && #[trigger] index_at(ws, i) == m
    &&& forall|i: int| 0 <= i < ws.len() ==> #[trigger] index_at(ws, i) <= m
}

/// What extraction returns for a block payload: the maximum decoded index of
/// a non-empty, fully decodable withdrawal sequence; `MissingData` where the
/// sequence is absent or empty; `Parse` where any record fails to decode.
pub open spec fn extract_post(block: Json, r: Result<u64, Error>) -> bool {
    match spec_withdrawals(block) {
        None => r == Err::<u64, Error>(Error::MissingData),
        Some(ws) => if ws.len() == 0 {
            r == Err::<u64, Error>(Error::MissingData)
        } else if !all_indices_valid(ws) {
            r == Err::<u64, Error>(Error::Parse)
        } else {
            r matches Ok(m) && is_max_index(ws, m)
        },
    }
}

/// Extracts the highest validator index from a parsed block response.
pub fn extract_highest_validator_index(block: &Json) -> (r: Result<u64, Error>)
    ensures
        extract_post(*block, r),
{
    let result = match field(block, "result") {
        Some(v) => v,
        None => {
            return Err(Error::MissingData);
        },
    };
    let ws: &Vec<Json> = match field(result, "withdrawals") {
        Some(v) => match v {
            Json::Arr(ws) => ws,
            _ => {
                return Err(Error::MissingData);
            },
        },
        None => {
            return Err(Error::MissingData);
        },
    };
    let n: usize = ws.len();
    if n == 0 {
        return Err(Error::MissingData);
    }
    let mut max: u64 = 0;
    for i in 0..n
        invariant
            n == ws@.len(),
            n > 0,
            spec_withdrawals(*block) == Some(ws@),
            forall|t: int| 0 <= t < i ==> (#[trigger] spec_record_index(ws@[t])) is Some,
            forall|t: int| 0 <= t < i ==> #[trigger] index_at(ws@, t) <= max,
            i > 0 ==> exists|t: int| 0 <= t < i && #[trigger] index_at(ws@, t) == max,
    {
        let rec = &ws[i];
        let s: &String = match field(rec, "validatorIndex") {
            Some(v) => match v {
                Json::Str(s) => s,
                _ => {
                    return Err(Error::Parse);
                },
            },
            None => {
                return Err(Error::Parse);
            },
        };
        let v: u64 = match decode_hex_u64(s.as_str()) {
            Some(v) => v,
            None => {
                return Err(Error::Parse);
            },
        };
        proof {
            assert(spec_record_index(ws@[i as int]) == Some(v));
            assert(index_at(ws@, i as int) == v);
        }
        if i == 0 || v > max {
            max = v;
        }
        proof {
            if max == v {
                assert(0 <= (i as int) < i + 1 && index_at(ws@, i as int) == max);
            } else {
                let t = choose|t: int| 0 <= t < i && #[trigger] index_at(ws@, t) == max;
                assert(0 <= t < i + 1 && index_at(ws@, t) == max);
            }
        }
    }
    Ok(max)
}

/// Reads the latest block number out of an `eth_blockNumber` response text:
/// `Protocol` where the text is not well-formed JSON, else as
/// [`parse_block_number_response`].
pub fn latest_block_number_from_response(body: &str) -> (r: Result<String, Error>)
    ensures
        match spec_parse_text(body@) {
            None => r == Err::<String, Error>(Error::Protocol),
            Some(resp) => match spec_block_number(resp) {
                Some(s) => r matches Ok(b) && b@ == s,
                None => r == Err::<String, Error>(Error::Protocol),
            },
        },
{
    match parse_text(body) {
        Some(resp) => parse_block_number_response(&resp),
        None => Err(Error::Protocol),
    }
}

/// Extracts the highest validator index from a block response text:
/// `Protocol` where the text is not well-formed JSON, else as
/// [`extract_highest_validator_index`].
pub fn get_highest_validator_index(body: &str) -> (r: Result<u64, Error>)
    ensures
        match spec_parse_text(body@) {
            None => r == Err::<u64, Error>(Error::Protocol),
            Some(block) => extract_post(block, r),
        },
{
    match parse_text(body) {
        Some(block) => extract_highest_validator_index(&block),
        None => Err(Error::Protocol),
    }
}

} // verus!
