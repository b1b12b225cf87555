//! Records shared by several services.
use vstd::prelude::*;
use std::collections::HashMap;

verus! {

/// A JSON value (metadata entries), carried through unread.
#[verifier::external_type_specification]
#[verifier::external_body]
pub struct ExJsonValue(serde_json::Value);

/// Relies on `serde_json::to_string` on a map of JSON values: it writes the map as a JSON
/// object, with the entries in the order in which the map is walked, which differs from one
/// process to the next; so nothing is stated of the text. A failure comes back as its message.
#[verifier::external_body]
pub(crate) fn metadata_json(m: &HashMap<String, serde_json::Value>) -> (r: Result<String, String>) {
    serde_json::to_string(m).map_err(|e| e.to_string())
}

/// Counters of a page of a listing.
#[derive(Debug, Clone)]
pub struct PageMetadata {
    pub total: u64,
    pub offset: u64,
    pub limit: u64,
}

/// Tokens that the users service issues.
#[derive(Debug, Clone)]
pub struct Token {
    pub access_token: String,
    pub refresh_token: Option<String>,
    pub access_type: String,
}

} // verus!
