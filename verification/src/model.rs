//! What contracts say of messages: requests and responses as mathematical
//! values, how a response reports its status and its headers, what each step
//! of a builder does, and what a neutral message becomes in a backend.

use crate::headers::{find, with_field, Fields};
use crate::text::{decoded_text, is_header_text, uri_path};
use vstd::prelude::*;
use vstd::utf8::*;

verus! {

/// The status a response reports where its backend holds a code that is no
/// HTTP status: 500, "Internal Server Error".
pub const FALLBACK_STATUS: u16 = 500;

/// The status a builder starts from: 200, "OK".
pub const DEFAULT_STATUS: u16 = 200;

/// A request as contracts see it.
pub struct RequestModel {
    pub method: Seq<char>,
    pub path: Seq<char>,
    pub headers: Fields,
    pub body: Seq<u8>,
}

/// A response as contracts see it. `status` is the code as the backend holds
/// it, in range or not.
pub struct ResponseModel {
    pub status: u16,
    pub headers: Fields,
    pub body: Seq<u8>,
}

/// A neutral request as contracts see it: it has a URI where a backend's
/// request has a path.
pub struct NeutralRequestModel {
    pub method: Seq<char>,
    pub uri: Seq<char>,
    pub headers: Fields,
    pub body: Seq<u8>,
}

/// Whether `code` is a status that a response reports as it stands.
pub open spec fn is_status(code: u16) -> bool {
    100 <= code <= 599
}

/// The status that a response reports for the code its backend holds.
pub open spec fn coerced_status(code: u16) -> u16 {
    if is_status(code) {
        code
    } else {
        FALLBACK_STATUS
    }
}

/// The text found under `name`: the first matching field's value, decoded.
pub open spec fn header_text(fields: Fields, name: Seq<char>) -> Option<Seq<char>> {
    match find(fields, name) {
        Some(bytes) => Some(decoded_text(bytes)),
        None => None,
    }
}

/// The path a backend's request has for the URI of a neutral request: the
/// path component of the URI, and the empty path where the URI is malformed.
pub open spec fn path_of_uri(uri: Seq<char>) -> Seq<char> {
    match uri_path(uri) {
        Some(path) => path,
        None => Seq::empty(),
    }
}

/// The name of the first field at or after `start` whose value a backend
/// cannot take as text.
pub open spec fn offending_from(fields: Fields, start: int) -> Option<Seq<char>>
    decreases fields.len() - start,
{
    if start < 0 || start >= fields.len() {
        None
    } else if !is_header_text(fields[start].1) {
        Some(fields[start].0)
    } else {
        offending_from(fields, start + 1)
    }
}

/// The name of the first field whose value a backend cannot take as text.
pub open spec fn offending_header(fields: Fields) -> Option<Seq<char>> {
    offending_from(fields, 0)
}

/// What a neutral request becomes in a backend: the request with the same
/// method, headers and body and the path of its URI, or the name of the
/// first header whose value the backend cannot encode.
pub open spec fn converted_request(msg: NeutralRequestModel) -> Result<RequestModel, Seq<char>> {
    match offending_header(msg.headers) {
        Some(name) => Err(name),
        None => Ok(
            RequestModel {
                method: msg.method,
                path: path_of_uri(msg.uri),
                headers: msg.headers,
                body: msg.body,
            },
        ),
    }
}

/// What a neutral response becomes in a backend: the same response, or the
/// name of the first header whose value the backend cannot encode.
pub open spec fn converted_response(msg: ResponseModel) -> Result<ResponseModel, Seq<char>> {
    match offending_header(msg.headers) {
        Some(name) => Err(name),
        None => Ok(msg),
    }
}

/// The response a builder starts from.
pub open spec fn fresh_response() -> ResponseModel {
    ResponseModel { status: DEFAULT_STATUS, headers: Seq::empty(), body: Seq::empty() }
}

impl ResponseModel {
    /// The status this response reports.
    pub open spec fn reported_status(self) -> u16 {
        coerced_status(self.status)
    }

    /// This response with its status set to `status`.
    pub open spec fn with_status(self, status: u16) -> ResponseModel {
        ResponseModel { status, ..self }
    }

    /// This response with the header `name` set to the text `value`.
    pub open spec fn with_header(self, name: Seq<char>, value: Seq<char>) -> ResponseModel {
        ResponseModel { headers: with_field(self.headers, name, encode_utf8(value)), ..self }
    }

    /// This response with its body set to `body`.
    pub open spec fn with_body(self, body: Seq<u8>) -> ResponseModel {
        ResponseModel { body, ..self }
    }
}

/// Maps the status code a backend holds to the one the response reports:
/// the code itself where it lies in 100..=599, and 500 otherwise.
pub fn coerce_status(code: u16) -> (status: u16)
    ensures
        status == coerced_status(code),
        is_status(status),
{
    if 100 <= code && code <= 599 {
        code
    } else {
        FALLBACK_STATUS
    }
}

} // verus!
