//! The outside JSON and JSON-RPC types that run through the controller, and
//! the calls into serde_json.
use vstd::prelude::*;

verus! {

/// A JSON value, as serde_json holds it.
#[verifier::external_type_specification]
#[verifier::external_body]
pub struct ExValue(serde_json::Value);

/// The error of a JSON read or write.
#[verifier::external_type_specification]
#[verifier::external_body]
pub struct ExJsonError(serde_json::Error);

/// The outcome of a JSON-RPC dispatch: a reply, or none for notifications.
#[verifier::external_type_specification]
pub struct ExMaybeReply(easy_jsonrpc::MaybeReply);

/// Whether serde_json reads the bytes as one JSON value.
pub uninterp spec fn json_parses(b: Seq<u8>) -> bool;

/// The JSON value that serde_json reads from bytes it accepts.
pub uninterp spec fn json_value_of(b: Seq<u8>) -> serde_json::Value;

/// Relies on serde_json::from_slice: the bytes are read as a JSON value;
/// whether they are accepted, and the value read, depend on the bytes alone.
#[verifier::external_body]
pub(crate) fn json_from_slice(b: &[u8]) -> (r: Result<serde_json::Value, serde_json::Error>)
    ensures
        r is Ok <==> json_parses(b@),
        r matches Ok(v) ==> v == json_value_of(b@),
{
    serde_json::from_slice(b)
}

/// The indented JSON text that serde_json writes for a value.
pub uninterp spec fn pretty_json_of(v: serde_json::Value) -> Seq<char>;

/// Relies on serde_json::to_string_pretty: the value as indented JSON text,
/// which depends on the value alone. Writing a `Value` into a `Vec` never
/// fails: its map keys are strings and its `Serialize` impl raises no error.
#[verifier::external_body]
pub(crate) fn json_to_string_pretty(v: &serde_json::Value) -> (r: Result<
    String,
    serde_json::Error,
>)
    ensures
        r is Ok,
        r->Ok_0@ == pretty_json_of(*v),
{
    serde_json::to_string_pretty(v)
}

} // verus!
