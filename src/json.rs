use vstd::prelude::*;

verus! {

/// serde_json's JSON value, carried through as it is.
#[verifier::external_type_specification]
#[verifier::external_body]
pub struct ExJsonValue(serde_json::Value);

/// serde_json's error for a failed read or write.
#[verifier::external_type_specification]
#[verifier::external_body]
pub struct ExJsonError(serde_json::Error);

/// The JSON text that serde_json writes for a value, or `None` where it
/// refuses to write one.
pub uninterp spec fn json_text_of(v: serde_json::Value) -> Option<Seq<char>>;

/// The value that serde_json reads from a text, or `None` where the text is
/// not JSON.
pub uninterp spec fn json_value_of(text: Seq<char>) -> Option<serde_json::Value>;

/// Relies on serde_json::to_string: its result depends on the value alone.
#[verifier::external_body]
pub(crate) fn encode_json(v: &serde_json::Value) -> (r: Result<String, serde_json::Error>)
    ensures
        r is Ok <==> json_text_of(*v) is Some,
        r is Ok ==> json_text_of(*v) == Some(r->Ok_0@),
{
    serde_json::to_string(v)
}

/// Relies on serde_json::from_str: its result depends on the text alone.
#[verifier::external_body]
pub(crate) fn decode_json(text: &str) -> (r: Result<serde_json::Value, serde_json::Error>)
    ensures
        r is Ok <==> json_value_of(text@) is Some,
        r is Ok ==> json_value_of(text@) == Some(r->Ok_0),
{
    serde_json::from_str(text)
}

} // verus!
