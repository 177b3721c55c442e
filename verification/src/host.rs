//! What the engine takes from the host's libraries as it stands, without
//! proof: each item here is believed, not verified.

use vstd::prelude::*;
use crate::types::text_view;

verus! {

/// Price of one byte of storage: ten to the nineteenth.
pub const STORAGE_PRICE_PER_BYTE: u128 = 10_000_000_000_000_000_000;

/// The text that `serde_json::to_string` gives for a byte string wrapped
/// in `near_sdk::json_types::Base64VecU8`. It depends on the bytes alone.
pub uninterp spec fn blob_hash_json(hash: Seq<u8>) -> Seq<char>;

/// Calls `near_sdk::serde_json::to_string` on `Base64VecU8` of the
/// bytes: the JSON text of their base64 form. Believed: the call
/// succeeds, as it writes one string into memory, and the result is the
/// text that `blob_hash_json` names for these bytes.
#[verifier::external_body]
pub(crate) fn encode_blob_hash(hash: &Vec<u8>) -> (out: Option<String>)
    ensures
        text_view(out) == Some(blob_hash_json(hash@)),
{
    near_sdk::serde_json::to_string(&near_sdk::json_types::Base64VecU8(hash.clone())).ok()
}

/// Reads `near_contract_standards::fungible_token::metadata::FT_METADATA_SPEC`,
/// the version tag of the token metadata standard. Believed: it is the
/// text `ft-1.0.0`.
#[verifier::external_body]
pub(crate) fn metadata_spec_tag() -> (tag: String)
    ensures
        tag@ == "ft-1.0.0"@,
{
    near_contract_standards::fungible_token::metadata::FT_METADATA_SPEC.to_string()
}

/// Calls `near_sdk::env::storage_byte_cost`, the price of one byte of
/// storage. Believed: it is the constant that the crate defines for it,
/// ten to the nineteenth.
#[verifier::external_body]
pub(crate) fn storage_byte_cost() -> (cost: u128)
    ensures
        cost == STORAGE_PRICE_PER_BYTE,
{
    near_sdk::env::storage_byte_cost()
}

} // verus!
