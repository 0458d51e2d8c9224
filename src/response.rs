//! The response envelope: every response carries the CORS headers, and a
//! successful one declares a JSON body.
use vstd::prelude::*;

use crate::error::{error_text, ControllerError};

verus! {

/// The status of a successful response.
pub const STATUS_OK: u16 = 200;

/// The status of a request that lacks valid credentials.
pub const STATUS_UNAUTHORIZED: u16 = 401;

/// The status of a request to a path that no route serves.
pub const STATUS_NOT_FOUND: u16 = 404;

/// The status of a failed request.
pub const STATUS_INTERNAL_SERVER_ERROR: u16 = 500;

/// One HTTP header line.
#[derive(Debug, Clone, PartialEq, Eq)]
pub struct Header {
    /// The header's name, in lower case.
    pub name: String,
    /// The header's value.
    pub value: String,
}

/// An HTTP response, as the controller decides it.
#[derive(Debug, Clone, PartialEq, Eq)]
pub struct HttpResponse {
    /// The status code.
    pub status: u16,
    /// The headers, in the order they are sent.
    pub headers: Vec<Header>,
    /// The body text.
    pub body: String,
}

/// The abstract content of a response.
pub struct ResponseView {
    pub status: u16,
    pub headers: Seq<(Seq<char>, Seq<char>)>,
    pub body: Seq<char>,
}

pub open spec fn header_view(h: Header) -> (Seq<char>, Seq<char>) {
    (h.name@, h.value@)
}

impl View for HttpResponse {
    type V = ResponseView;

    open spec fn view(&self) -> ResponseView {
        ResponseView {
            status: self.status,
            headers: self.headers@.map_values(|h: Header| header_view(h)),
            body: self.body@,
        }
    }
}

/// The two CORS headers that every response carries.
pub open spec fn cors_headers() -> Seq<(Seq<char>, Seq<char>)> {
    seq![
        ("access-control-allow-origin"@, "*"@),
        ("access-control-allow-headers"@, "Content-Type, Authorization"@),
    ]
}

/// The header that declares a JSON body.
pub open spec fn json_content_type() -> (Seq<char>, Seq<char>) {
    ("content-type"@, "application/json"@)
}

/// The headers of a response with the given status: the CORS headers, and
/// the JSON content type on a success.
pub open spec fn envelope_headers(status: u16) -> Seq<(Seq<char>, Seq<char>)> {
    if status == STATUS_OK {
        cors_headers().push(json_content_type())
    } else {
        cors_headers()
    }
}

/// Whether a response is the envelope of the given status around the given body.
pub open spec fn is_envelope(r: ResponseView, status: u16, body: Seq<char>) -> bool {
    &&& r.status == status
    &&& r.headers == envelope_headers(status)
    &&& r.body == body
}

fn header(name: &str, value: &str) -> (h: Header)
    ensures
        header_view(h) == (name@, value@),
{
    Header { name: String::from_str(name), value: String::from_str(value) }
}

fn cors_header_list() -> (v: Vec<Header>)
    ensures
        v@.map_values(|h: Header| header_view(h)) == cors_headers(),
{
    let mut v: Vec<Header> = Vec::new();
    v.push(header("access-control-allow-origin", "*"));
    v.push(header("access-control-allow-headers", "Content-Type, Authorization"));
    assert(v@.map_values(|h: Header| header_view(h)) =~= cors_headers());
    v
}

/// Builds a response with the given status and body. A success declares the
/// body as JSON, so the body of a success should be JSON text.
pub fn response(status: u16, text: String) -> (r: HttpResponse)
    ensures
        is_envelope(r@, status, text@),
{
    let mut headers = cors_header_list();
    if status == STATUS_OK {
        let ghost before = headers@;
        headers.push(header("content-type", "application/json"));
        assert(headers@.map_values(|h: Header| header_view(h)) =~= before.map_values(
            |h: Header| header_view(h),
        ).push(json_content_type()));
    }
    HttpResponse { status, headers, body: text }
}

/// A successful response around the given JSON text.
pub fn create_ok_response(json: &str) -> (r: HttpResponse)
    ensures
        is_envelope(r@, STATUS_OK, json@),
{
    response(STATUS_OK, String::from_str(json))
}

/// A failed response whose plain-text body is the error's display text.
pub fn create_error_response(e: ControllerError) -> (r: HttpResponse)
    ensures
        is_envelope(r@, STATUS_INTERNAL_SERVER_ERROR, error_text(e)),
{
    response(STATUS_INTERNAL_SERVER_ERROR, e.message())
}

} // verus!
