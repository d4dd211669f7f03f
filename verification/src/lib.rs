//! Extracts the highest validator withdrawal index from an Ethereum node's
//! JSON-RPC block responses.
//!
//! The library models the JSON payloads as a plain tree ([`json::Json`]),
//! decodes hexadecimal validator indices, and computes the maximum index over
//! a block's withdrawal records. Network transport and metric publication are
//! left to the surrounding program.

pub mod block;
pub mod hex;
pub mod json;

pub use block::block_details_request;
pub use block::block_number_request;
pub use block::extract_highest_validator_index;
pub use block::get_highest_validator_index;
pub use block::latest_block_number_from_response;
pub use block::parse_block_number_response;
pub use block::Error;
pub use block::JsonRpcRequest;
pub use json::Json;
