//! Messages as plain values: the neutral form, which belongs to no backend,
//! and the form in which a backend holds a request or a response.

use crate::headers::HeaderList;
use crate::model::{
    converted_request, converted_response, fresh_response, offending_from, offending_header,
    NeutralRequestModel, RequestModel, ResponseModel, DEFAULT_STATUS,
};
use crate::text::{header_value_text, lemma_header_text_is_utf8, parse_uri_path};
use vstd::prelude::*;
use vstd::string::*;

verus! {

/// A request in neutral form: a method, a URI, header fields in order and a
/// body. Names may repeat, and values are bytes of any kind.
#[derive(Debug, Clone, PartialEq, Eq)]
pub struct NeutralRequest {
    pub method: String,
    pub uri: String,
    pub headers: HeaderList,
    pub body: Vec<u8>,
}

impl View for NeutralRequest {
    type V = NeutralRequestModel;

    open spec fn view(&self) -> NeutralRequestModel {
        NeutralRequestModel {
            method: self.method@,
            uri: self.uri@,
            headers: self.headers@,
            body: self.body@,
        }
    }
}

/// A response in neutral form: a status code, header fields in order and a
/// body.
#[derive(Debug, Clone, PartialEq, Eq)]
pub struct NeutralResponse {
    pub status: u16,
    pub headers: HeaderList,
    pub body: Vec<u8>,
}

impl View for NeutralResponse {
    type V = ResponseModel;

    open spec fn view(&self) -> ResponseModel {
        ResponseModel { status: self.status, headers: self.headers@, body: self.body@ }
    }
}

/// A request as a backend holds it, in plain values: what the runtime's own
/// request answers when it is asked for its method, its path, its headers
/// and its body.
#[derive(Debug, Clone, PartialEq, Eq)]
pub struct NativeRequest {
    pub method: String,
    pub path: String,
    pub headers: HeaderList,
    pub body: Vec<u8>,
}

impl View for NativeRequest {
    type V = RequestModel;

    open spec fn view(&self) -> RequestModel {
        RequestModel {
            method: self.method@,
            path: self.path@,
            headers: self.headers@,
            body: self.body@,
        }
    }
}

/// A response as a backend holds it, in plain values. The status is the
/// backend's number, whatever it is.
#[derive(Debug, Clone, PartialEq, Eq)]
pub struct NativeResponse {
    pub status: u16,
    pub headers: HeaderList,
    pub body: Vec<u8>,
}

impl View for NativeResponse {
    type V = ResponseModel;

    open spec fn view(&self) -> ResponseModel {
        ResponseModel { status: self.status, headers: self.headers@, body: self.body@ }
    }
}

/// A neutral message could not be handed to a backend: the value of the
/// header `header` is not text that the backend can encode.
#[derive(Debug, Clone, PartialEq, Eq)]
pub struct EncodingError {
    pub header: String,
}

impl EncodingError {
    /// What went wrong, in words: a fixed sentence and the header's name.
    pub fn message(&self) -> (text: String)
        ensures
            text@ == "cannot encode the value of header "@ + self.header@,
    {
        "cannot encode the value of header ".to_owned().concat(self.header.as_str())
    }
}

/// Checks the header fields of a neutral message against what a backend can
/// encode and hands them to the backend, in order. The first field whose
/// value is not text stops the work, and the error names it.
pub fn encode_headers(headers: &HeaderList) -> (result: Result<HeaderList, EncodingError>)
    ensures
        match result {
            Ok(encoded) => offending_header(headers@) is None && encoded@ == headers@,
            Err(e) => offending_header(headers@) == Some(e.header@),
        },
{
    let mut encoded = HeaderList::new();
    let mut i: usize = 0;
    while i < headers.fields.len()
        invariant
            i <= headers.fields.len(),
            offending_header(headers@) == offending_from(headers@, i as int),
            encoded@ == headers@.take(i as int),
        decreases headers.fields.len() - i,
    {
        let field = &headers.fields[i];
        assert(headers@[i as int] == field@);
        match header_value_text(field.value.as_slice()) {
            Some(text) => {
                proof {
                    lemma_header_text_is_utf8(field.value@);
                }
                let bytes = text.as_str().as_bytes_vec();
                encoded.append(field.name.clone(), bytes);
                assert(encoded@ =~= headers@.take(i as int + 1));
            },
            None => {
                return Err(EncodingError { header: field.name.clone() });
            },
        }
        i += 1;
    }
    assert(headers@.take(i as int) =~= headers@);
    Ok(encoded)
}

impl NativeRequest {
    /// Makes a backend's request of a neutral one. Method and body pass
    /// through, the path is the path component of the URI (empty where the
    /// URI is malformed), and each header value must be text that the
    /// backend can encode: the first one that is not fails the conversion.
    pub fn from_neutral(msg: NeutralRequest) -> (result: Result<NativeRequest, EncodingError>)
        ensures
            match result {
                Ok(native) => converted_request(msg@) == Ok::<RequestModel, Seq<char>>(native@),
                Err(e) => converted_request(msg@) == Err::<RequestModel, Seq<char>>(e.header@),
            },
    {
        let headers = match encode_headers(&msg.headers) {
            Ok(encoded) => encoded,
            Err(e) => {
                return Err(e);
            },
        };
        let path = match parse_uri_path(msg.uri.as_str()) {
            Some(path) => path,
            None => String::new(),
        };
        Ok(NativeRequest { method: msg.method, path, headers, body: msg.body })
    }
}

impl NativeResponse {
    /// The response a builder starts from: status 200, no headers, an empty
    /// body.
    pub fn new() -> (response: NativeResponse)
        ensures
            response@ == fresh_response(),
    {
        NativeResponse { status: DEFAULT_STATUS, headers: HeaderList::new(), body: Vec::new() }
    }

    /// Makes a backend's response of a neutral one. Status and body pass
    /// through, and each header value must be text that the backend can
    /// encode: the first one that is not fails the conversion.
    pub fn from_neutral(msg: NeutralResponse) -> (result: Result<NativeResponse, EncodingError>)
        ensures
            match result {
                Ok(native) => converted_response(msg@) == Ok::<ResponseModel, Seq<char>>(native@),
                Err(e) => converted_response(msg@) == Err::<ResponseModel, Seq<char>>(e.header@),
            },
    {
        let headers = match encode_headers(&msg.headers) {
            Ok(encoded) => encoded,
            Err(e) => {
                return Err(e);
            },
        };
        Ok(NativeResponse { status: msg.status, headers, body: msg.body })
    }

    /// This response with the status `status`.
    pub fn with_status(self, status: u16) -> (response: NativeResponse)
        ensures
            response@ == self@.with_status(status),
    {
        NativeResponse { status, headers: self.headers, body: self.body }
    }

    /// This response with the header `name` set to `value`, in place of any
    /// header of that name. Name and value are taken as they are.
    pub fn with_header(self, name: &str, value: &str) -> (response: NativeResponse)
        ensures
            response@ == self@.with_header(name@, value@),
    {
        let mut headers = self.headers;
        headers.set(name.to_owned(), value.as_bytes_vec());
        NativeResponse { status: self.status, headers, body: self.body }
    }

    /// This response with the body `body`.
    pub fn with_body(self, body: Vec<u8>) -> (response: NativeResponse)
        ensures
            response@ == self@.with_body(body@),
    {
        NativeResponse { status: self.status, headers: self.headers, body }
    }
}

} // verus!
