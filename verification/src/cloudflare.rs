//! The adapter for Cloudflare Workers: requests, responses, a response
//! builder and handlers of the Workers runtime behind the traits of this
//! crate.

use crate::message::{EncodingError, NativeRequest, NativeResponse, NeutralRequest, NeutralResponse};
use crate::model::{
    coerce_status, converted_request, converted_response, RequestModel, ResponseModel,
};
use crate::text::decode_header_value;
use crate::{Handler, Request, Response, ResponseBuilder};
use std::borrow::Cow;
use vstd::prelude::*;
use vstd::std_specs::convert::{FromSpecImpl, TryFromSpecImpl};

verus! {

/// A Workers request behind [`Request`].
#[derive(Debug, Clone, PartialEq, Eq)]
pub struct CfRequest(pub NativeRequest);

impl Request for CfRequest {
    open spec fn model(&self) -> RequestModel {
        self.0@
    }

    fn method(&self) -> (method: &str) {
        self.0.method.as_str()
    }

    fn path(&self) -> (path: &str) {
        self.0.path.as_str()
    }

    fn header(&self, name: &str) -> (value: Option<Cow<'_, str>>) {
        match self.0.headers.get(name) {
            Some(bytes) => Some(decode_header_value(bytes)),
            None => None,
        }
    }

    fn body(&self) -> (body: &[u8]) {
        self.0.body.as_slice()
    }
}

impl TryFrom<NeutralRequest> for CfRequest {
    type Error = EncodingError;

    /// Makes a Workers request of a neutral one. It fails on the first
    /// header whose value Workers cannot encode, and names that header.
    fn try_from(value: NeutralRequest) -> (result: Result<Self, EncodingError>)
        ensures
            match result {
                Ok(req) => converted_request(value@) == Ok::<RequestModel, Seq<char>>(req.model()),
                Err(e) => converted_request(value@) == Err::<RequestModel, Seq<char>>(e.header@),
            },
    {
        match NativeRequest::from_neutral(value) {
            Ok(native) => Ok(CfRequest(native)),
            Err(e) => Err(e),
        }
    }
}

impl TryFromSpecImpl<NeutralRequest> for CfRequest {
    /// The conversion makes its strings anew, so `try_from` states its
    /// result over views and not as one fixed value.
    open spec fn obeys_try_from_spec() -> bool {
        false
    }

    open spec fn try_from_spec(value: NeutralRequest) -> Result<Self, EncodingError> {
        arbitrary()
    }
}

impl From<NativeRequest> for CfRequest {
    /// Wraps a request that Workers handed over. This never fails.
    fn from(req: NativeRequest) -> (wrapped: Self) {
        CfRequest(req)
    }
}

impl FromSpecImpl<NativeRequest> for CfRequest {
    open spec fn obeys_from_spec() -> bool {
        true
    }

    open spec fn from_spec(req: NativeRequest) -> Self {
        CfRequest(req)
    }
}

/// A Workers response behind [`Response`].
#[derive(Debug, Clone, PartialEq, Eq)]
pub struct CfResponse(pub NativeResponse);

impl Response for CfResponse {
    open spec fn model(&self) -> ResponseModel {
        self.0@
    }

    fn status(&self) -> (status: u16) {
        coerce_status(self.0.status)
    }

    fn header(&self, name: &str) -> (value: Option<Cow<'_, str>>) {
        match self.0.headers.get(name) {
            Some(bytes) => Some(decode_header_value(bytes)),
            None => None,
        }
    }

    fn body(&self) -> (body: &[u8]) {
        self.0.body.as_slice()
    }
}

impl TryFrom<NeutralResponse> for CfResponse {
    type Error = EncodingError;

    /// Makes a Workers response of a neutral one. It fails on the first
    /// header whose value Workers cannot encode, and names that header.
    fn try_from(value: NeutralResponse) -> (result: Result<Self, EncodingError>)
        ensures
            match result {
                Ok(resp) => converted_response(value@) == Ok::<ResponseModel, Seq<char>>(
                    resp.model(),
                ),
                Err(e) => converted_response(value@) == Err::<ResponseModel, Seq<char>>(
                    e.header@,
                ),
            },
    {
        match NativeResponse::from_neutral(value) {
            Ok(native) => Ok(CfResponse(native)),
            Err(e) => Err(e),
        }
    }
}

impl TryFromSpecImpl<NeutralResponse> for CfResponse {
    /// The conversion makes its strings anew, so `try_from` states its
    /// result over views and not as one fixed value.
    open spec fn obeys_try_from_spec() -> bool {
        false
    }

    open spec fn try_from_spec(value: NeutralResponse) -> Result<Self, EncodingError> {
        arbitrary()
    }
}

impl From<NativeResponse> for CfResponse {
    /// Wraps a response that Workers holds. This never fails.
    fn from(resp: NativeResponse) -> (wrapped: Self) {
        CfResponse(resp)
    }
}

impl FromSpecImpl<NativeResponse> for CfResponse {
    open spec fn obeys_from_spec() -> bool {
        true
    }

    open spec fn from_spec(resp: NativeResponse) -> Self {
        CfResponse(resp)
    }
}

impl From<CfResponse> for NativeResponse {
    /// Hands the Workers response out again.
    fn from(resp: CfResponse) -> (native: Self) {
        resp.0
    }
}

impl FromSpecImpl<CfResponse> for NativeResponse {
    open spec fn obeys_from_spec() -> bool {
        true
    }

    open spec fn from_spec(resp: CfResponse) -> Self {
        resp.0
    }
}

/// The Workers response builder behind [`ResponseBuilder`].
#[derive(Debug, Clone, PartialEq, Eq)]
pub struct CfResponseBuilder(pub NativeResponse);

impl ResponseBuilder for CfResponseBuilder {
    type Resp = CfResponse;

    open spec fn pending(&self) -> ResponseModel {
        self.0@
    }

    fn new() -> (builder: Self) {
        CfResponseBuilder(NativeResponse::new())
    }

    fn status(self, status: u16) -> (builder: Self) {
        CfResponseBuilder(self.0.with_status(status))
    }

    fn header(self, name: &str, value: &str) -> (builder: Self) {
        CfResponseBuilder(self.0.with_header(name, value))
    }

    fn body(self, body: Vec<u8>) -> (builder: Self) {
        CfResponseBuilder(self.0.with_body(body))
    }

    fn build(self) -> (response: CfResponse) {
        CfResponse(self.0)
    }
}

/// A handler made of a function on Workers requests and responses.
pub struct CfHandler<F>(pub F);

impl<F> Handler for CfHandler<F> where
    F: Fn(NativeRequest) -> NativeResponse + Send + Sync + 'static,
 {
    type Req = CfRequest;

    type Resp = CfResponse;

    /// The handler may be called where the function may.
    open spec fn accepts(&self, req: CfRequest) -> bool {
        call_requires(self.0, (req.0,))
    }

    /// The handler gives what the function gives, wrapped.
    open spec fn answers(&self, req: CfRequest, resp: CfResponse) -> bool {
        call_ensures(self.0, (req.0,), resp.0)
    }

    fn handle(&self, req: CfRequest) -> (resp: CfResponse) {
        CfResponse((self.0)(req.0))
    }
}

/// Makes a handler of a function on Workers requests and responses.
pub fn cf_handler<F>(f: F) -> (handler: CfHandler<F>) where
    F: Fn(NativeRequest) -> NativeResponse + Send + Sync + 'static,

    ensures
        handler.0 == f,
{
    CfHandler(f)
}

/// Wrapping is total: every request and every response that Workers holds can
/// be wrapped, and the wrapped value shows that very message.
pub proof fn lemma_wrap_is_total(request: NativeRequest, response: NativeResponse)
    ensures
        call_requires(<CfRequest as From<NativeRequest>>::from, (request,)),
        forall|wrapped: CfRequest|
            call_ensures(<CfRequest as From<NativeRequest>>::from, (request,), wrapped)
                ==> wrapped.model() == request@,
        call_requires(<CfResponse as From<NativeResponse>>::from, (response,)),
        forall|wrapped: CfResponse|
            call_ensures(<CfResponse as From<NativeResponse>>::from, (response,), wrapped)
                ==> wrapped.model() == response@,
{
}

} // verus!
