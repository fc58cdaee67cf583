use crate::error::AppError;
use vstd::prelude::*;

verus! {

#[verifier::external_type_specification]
#[verifier::external_body]
pub struct ExJsonValue(serde_json::Value);

#[verifier::external_type_specification]
#[verifier::external_body]
pub struct ExJsonError(serde_json::Error);

/// Whether `text` is one JSON document, as serde_json reads it.
pub uninterp spec fn json_accepts(text: Seq<char>) -> bool;

/// The value serde_json reads from a JSON document.
pub uninterp spec fn json_value_of(text: Seq<char>) -> serde_json::Value;

/// Relies on `serde_json::from_str::<serde_json::Value>`: it returns a value
/// exactly when the text is one well-formed JSON document, and both the
/// answer and the value read depend on the text alone.
#[verifier::external_body]
fn parse_json(text: &str) -> (r: Result<serde_json::Value, serde_json::Error>)
    ensures
        r is Ok <==> json_accepts(text@),
        r matches Ok(v) ==> v == json_value_of(text@),
{
    serde_json::from_str::<serde_json::Value>(text)
}

/// Reads a payload that crosses the sandbox boundary. Text that is not JSON
/// gives a payload serialization error carrying serde_json's description.
pub fn decode_payload(text: &str) -> (r: Result<serde_json::Value, AppError>)
    ensures
        r is Ok <==> json_accepts(text@),
        r matches Ok(v) ==> v == json_value_of(text@),
        r is Err ==> r->Err_0 is PayloadSerialization,
{
    match parse_json(text) {
        Ok(v) => Ok(v),
        Err(e) => Err(AppError::PayloadSerialization(e.to_string())),
    }
}

} // verus!
