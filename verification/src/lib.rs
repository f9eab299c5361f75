//! A portable HTTP request / response / handler abstraction: handler code is
//! written once against the four traits of this crate and runs on any backend
//! that has an adapter.

pub mod cloudflare;
pub mod headers;
pub mod laws;
pub mod message;
pub mod model;
pub mod serde;
pub mod spin;
pub mod text;

use crate::model::{fresh_response, header_text, RequestModel, ResponseModel};
use std::borrow::Cow;
use vstd::prelude::*;

verus! {

/// An HTTP request.
pub trait Request {
    /// The request as contracts see it.
    spec fn model(&self) -> RequestModel;

    /// The request method, such as `"GET"`.
    fn method(&self) -> (method: &str)
        ensures
            method@ == self.model().method,
    ;

    /// The request path.
    fn path(&self) -> (path: &str)
        ensures
            path@ == self.model().path,
    ;

    /// The text of the header `name`, whatever the case of its letters, or
    /// `None` where the request has no such header. A value that is not
    /// UTF-8 is decoded lossily.
    fn header(&self, name: &str) -> (value: Option<Cow<'_, str>>)
        ensures
            match value {
                Some(text) => header_text(self.model().headers, name@) == Some(text@),
                None => header_text(self.model().headers, name@) is None,
            },
    ;

    /// The request body, empty where the request has none.
    fn body(&self) -> (body: &[u8])
        ensures
            body@ == self.model().body,
    ;
}

/// An HTTP response.
pub trait Response {
    /// The response as contracts see it.
    spec fn model(&self) -> ResponseModel;

    /// The status code, always in 100..=599: a backend's code outside that
    /// range is reported as 500.
    fn status(&self) -> (status: u16)
        ensures
            status == self.model().reported_status(),
    ;

    /// The text of the header `name`, whatever the case of its letters, or
    /// `None` where the response has no such header. A value that is not
    /// UTF-8 is decoded lossily.
    fn header(&self, name: &str) -> (value: Option<Cow<'_, str>>)
        ensures
            match value {
                Some(text) => header_text(self.model().headers, name@) == Some(text@),
                None => header_text(self.model().headers, name@) is None,
            },
    ;

    /// The response body.
    fn body(&self) -> (body: &[u8])
        ensures
            body@ == self.model().body,
    ;
}

/// A consuming builder of responses: each step takes the builder and gives
/// back the builder that holds the change, and `build` ends it.
pub trait ResponseBuilder: Sized {
    /// The response type that `build` yields.
    type Resp: Response;

    /// The response that `build` would yield now.
    spec fn pending(&self) -> ResponseModel;

    /// A builder with status 200, no headers and an empty body.
    fn new() -> (builder: Self)
        ensures
            builder.pending() == fresh_response(),
    ;

    /// Sets the status code.
    fn status(self, status: u16) -> (builder: Self)
        ensures
            builder.pending() == self.pending().with_status(status),
    ;

    /// Sets the header `name` to `value`, in place of any header of that
    /// name.
    fn header(self, name: &str, value: &str) -> (builder: Self)
        ensures
            builder.pending() == self.pending().with_header(name@, value@),
    ;

    /// Sets the body.
    fn body(self, body: Vec<u8>) -> (builder: Self)
        ensures
            builder.pending() == self.pending().with_body(body@),
    ;

    /// The response that was built.
    fn build(self) -> (response: Self::Resp)
        ensures
            response.model() == self.pending(),
    ;
}

/// A request handler: one owned request in, one owned response out.
pub trait Handler {
    /// The request type the handler takes.
    type Req: Request;

    /// The response type the handler gives.
    type Resp: Response;

    /// Whether the handler may be called on `req`.
    spec fn accepts(&self, req: Self::Req) -> bool;

    /// Whether `resp` is a response the handler may give to `req`.
    spec fn answers(&self, req: Self::Req, resp: Self::Resp) -> bool;

    /// Handles one request.
    fn handle(&self, req: Self::Req) -> (resp: Self::Resp)
        requires
            self.accepts(req),
        ensures
            self.answers(req, resp),
    ;
}

} // verus!
