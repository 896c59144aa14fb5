//! The JSON parser, as far as this crate calls it.

use serde::de::DeserializeOwned;
use serde_json::Error as JsonError;
use vstd::prelude::*;

verus! {

/// `serde_json::Error`, carried unread from the parser to the caller.
#[verifier::external_type_specification]
#[verifier::external_body]
pub struct ExJsonError(JsonError);

/// Calls `serde_json::from_str`, which reads `payload` as one JSON document
/// and builds a `T` from it through `T`'s own `Deserialize` impl.
///
/// Nothing is claimed of the outcome: it rests on that impl.
#[verifier::external_body]
pub(crate) fn from_json_str<T: DeserializeOwned>(payload: &str) -> (outcome: Result<T, JsonError>) {
    serde_json::from_str(payload)
}

} // verus!
