//! The JSON-RPC dispatch path shared by every API handler: reading the body,
//! and turning the dispatch outcome into a response.
use vstd::prelude::*;

use easy_jsonrpc::MaybeReply;

use crate::error::ControllerError;
use crate::json::{
    json_from_slice, json_parses, json_to_string_pretty, json_value_of, pretty_json_of,
};
use crate::response::{
    create_error_response, create_ok_response, is_envelope, response, HttpResponse, ResponseView,
    STATUS_OK,
    STATUS_INTERNAL_SERVER_ERROR,
};

verus! {

/// The prefix of the message that reports an unreadable JSON body.
pub open spec fn invalid_body_prefix() -> Seq<char> {
    "Invalid request body: "@
}

/// The message that reports a body that could not be received.
pub open spec fn read_failure_text() -> Seq<char> {
    "Failed to read request"@
}

/// Whether an error reports a body that could not be received.
pub open spec fn reports_read_failure(e: ControllerError) -> bool {
    e matches ControllerError::GenericError(m) && m@ == read_failure_text()
}

/// Whether an error reports a body that is not JSON.
pub open spec fn reports_invalid_body(e: ControllerError) -> bool {
    e matches ControllerError::GenericError(m) && invalid_body_prefix().is_prefix_of(m@)
}

/// Parses a request body as JSON. `None` stands for a body that could not be
/// received. A body serde_json does not accept gives an error whose message
/// starts with "Invalid request body: ", followed by serde_json's diagnostic.
pub fn parse_body(body: Option<&[u8]>) -> (r: Result<serde_json::Value, ControllerError>)
    ensures
        r is Ok <==> (body matches Some(b) && json_parses(b@)),
        r matches Ok(v) ==> parsed_from(body, v),
        body is None ==> (r matches Err(e) && reports_read_failure(e)),
        (body matches Some(b) && !json_parses(b@)) ==> (r matches Err(e) && reports_invalid_body(
            e,
        )),
{
    match body {
        None => Err(ControllerError::GenericError(String::from_str("Failed to read request"))),
        Some(b) => match json_from_slice(b) {
            Ok(v) => Ok(v),
            Err(e) => {
                let mut m = String::from_str("Invalid request body: ");
                let detail = e.to_string();
                m.append(detail.as_str());
                proof {
                    assert(m@.subrange(0, invalid_body_prefix().len() as int)
                        =~= invalid_body_prefix());
                }
                Err(ControllerError::GenericError(m))
            },
        },
    }
}

/// The message a client receives for a body that is not JSON: it starts with
/// the words "Generic error: Invalid request body: ".
pub open spec fn invalid_body_response_prefix() -> Seq<char> {
    "Generic error: "@ + invalid_body_prefix()
}

/// Whether a value is the one serde_json read from the request body.
pub open spec fn parsed_from(body: Option<&[u8]>, v: serde_json::Value) -> bool {
    body matches Some(b) && v == json_value_of(b@)
}

/// Whether the first step of a POST goes on to dispatch: exactly when the
/// body was received and is JSON.
pub open spec fn post_prelude_ok(body: Option<&[u8]>, ok: bool) -> bool {
    ok <==> (body matches Some(b) && json_parses(b@))
}

/// What the failure response of the first step of a POST is: a failure whose
/// body reports an unreceived body, or one that is not JSON.
pub open spec fn post_prelude_failure(body: Option<&[u8]>, resp: ResponseView) -> bool {
    &&& body is None ==> is_envelope(
        resp,
        STATUS_INTERNAL_SERVER_ERROR,
        "Generic error: "@ + read_failure_text(),
    )
    &&& (body matches Some(b) && !json_parses(b@)) ==> (is_envelope(
        resp,
        STATUS_INTERNAL_SERVER_ERROR,
        resp.body,
    ) && invalid_body_response_prefix().is_prefix_of(resp.body))
}

/// The first step of a POST: the parsed body to dispatch, or the failure
/// response when the body could not be received or is not JSON.
pub fn post_prelude(body: Option<&[u8]>) -> (r: Result<serde_json::Value, HttpResponse>)
    ensures
        post_prelude_ok(body, r is Ok),
        r matches Ok(v) ==> parsed_from(body, v),
        r matches Err(resp) ==> post_prelude_failure(body, resp@),
{
    match parse_body(body) {
        Ok(v) => Ok(v),
        Err(e) => {
            let ghost err = e;
            let resp = create_error_response(e);
            proof {
                if let ControllerError::GenericError(m) = err {
                    if invalid_body_prefix().is_prefix_of(m@) {
                        assert(resp@.body.subrange(0, invalid_body_response_prefix().len() as int)
                            =~= invalid_body_response_prefix());
                    }
                }
            }
            Err(resp)
        },
    }
}

/// The response around text that serializing a reply produced: a success
/// with that text, or a failure with an empty body.
pub fn pretty_response(serialized: Result<String, serde_json::Error>) -> (r: HttpResponse)
    ensures
        serialized matches Ok(t) ==> is_envelope(r@, STATUS_OK, t@),
        serialized is Err ==> is_envelope(r@, STATUS_INTERNAL_SERVER_ERROR, Seq::empty()),
{
    match serialized {
        Ok(json) => response(STATUS_OK, json),
        Err(_) => response(STATUS_INTERNAL_SERVER_ERROR, String::new()),
    }
}

/// Serializes a JSON value as indented text into a successful response.
pub fn json_response_pretty(v: &serde_json::Value) -> (r: HttpResponse)
    ensures
        is_envelope(r@, STATUS_OK, pretty_json_of(*v)),
{
    pretty_response(json_to_string_pretty(v))
}

/// The body that answers a request made only of notifications: an empty
/// batch, which JSON-RPC clients read as zero replies.
pub open spec fn empty_batch_text() -> Seq<char> {
    "[]"@
}

/// What answers a dispatch outcome: an empty batch when no reply is due;
/// otherwise the reply's indented JSON text, as a success.
pub open spec fn reply_envelope(outcome: MaybeReply, r: ResponseView) -> bool {
    match outcome {
        MaybeReply::DontReply => is_envelope(r, STATUS_OK, empty_batch_text()),
        MaybeReply::Reply(v) => is_envelope(r, STATUS_OK, pretty_json_of(v)),
    }
}

/// The response to a dispatch outcome: the reply serialized, or an empty
/// batch when the request asked for no reply.
pub fn reply_response(outcome: MaybeReply) -> (r: HttpResponse)
    ensures
        reply_envelope(outcome, r@),
{
    match outcome {
        MaybeReply::Reply(v) => json_response_pretty(&v),
        MaybeReply::DontReply => create_ok_response("[]"),
    }
}

/// The answer to a CORS preflight: a success with the body "{}".
pub open spec fn preflight_text() -> Seq<char> {
    "{}"@
}

/// The response to an OPTIONS request on any route.
pub fn options_response() -> (r: HttpResponse)
    ensures
        is_envelope(r@, STATUS_OK, preflight_text()),
{
    create_ok_response("{}")
}

} // verus!
