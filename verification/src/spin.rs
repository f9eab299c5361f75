//! The adapter for Spin: requests, responses, a response
//! builder and handlers of the Spin runtime behind the traits of this
//! crate.

use crate::message::{EncodingError, NativeRequest, NativeResponse, NeutralRequest, NeutralResponse};
use crate::model::{
    coerce_status, converted_request, converted_response, RequestModel, ResponseModel,
};
use crate::text::decode_header_value;
use crate::{Handler, Request, Response, ResponseBuilder};
use std::borrow::Cow;
use vstd::prelude::*;
use vstd::std_specs::convert::{FromSpecImpl, TryFromSpecImpl};

verus! {

/// A Spin request behind [`Request`].
#[derive(Debug, Clone, PartialEq, Eq)]
pub struct SpinRequest(pub NativeRequest);

impl Request for SpinRequest {
    open spec fn model(&self) -> RequestModel {
        self.0@
    }

    fn method(&self) -> (method: &str) {
        self.0.method.as_str()
    }

    fn path(&self) -> (path: &str) {
        self.0.path.as_str()
    }

    fn header(&self, name: &str) -> (value: Option<Cow<'_, str>>) {
        match self.0.headers.get(name) {
            Some(bytes) => Some(decode_header_value(bytes)),
            None => None,
        }
    }

    fn body(&self) -> (body: &[u8]) {
        self.0.body.as_slice()
    }
}

impl TryFrom<NeutralRequest> for SpinRequest {
    type Error = EncodingError;

    /// Makes a Spin request of a neutral one. It fails on the first
    /// header whose value Spin cannot encode, and names that header.
    fn try_from(value: NeutralRequest) -> (result: Result<Self, EncodingError>)
        ensures
            match result {
                Ok(req) => converted_request(value@) == Ok::<RequestModel, Seq<char>>(req.model()),
                Err(e) => converted_request(value@) == Err::<RequestModel, Seq<char>>(e.header@),
            },
    {
        match NativeRequest::from_neutral(value) {
            Ok(native) => Ok(SpinRequest(native)),
            Err(e) => Err(e),
        }
    }
}

impl TryFromSpecImpl<NeutralRequest> for SpinRequest {
    /// The conversion makes its strings anew, so `try_from` states its
    /// result over views and not as one fixed value.
    open spec fn obeys_try_from_spec() -> bool {
        false
    }

    open spec fn try_from_spec(value: NeutralRequest) -> Result<Self, EncodingError> {
        arbitrary()
    }
}

impl From<NativeRequest> for SpinRequest {
    /// Wraps a request that Spin handed over. This never fails.
    fn from(req: NativeRequest) -> (wrapped: Self) {
        SpinRequest(req)
    }
}

impl FromSpecImpl<NativeRequest> for SpinRequest {
    open spec fn obeys_from_spec() -> bool {
        true
    }

    open spec fn from_spec(req: NativeRequest) -> Self {
        SpinRequest(req)
    }
}

/// A Spin response behind [`Response`].
#[derive(Debug, Clone, PartialEq, Eq)]
pub struct SpinResponse(pub NativeResponse);

impl Response for SpinResponse {
    open spec fn model(&self) -> ResponseModel {
        self.0@
    }

    fn status(&self) -> (status: u16) {
        coerce_status(self.0.status)
    }

    fn header(&self, name: &str) -> (value: Option<Cow<'_, str>>) {
        match self.0.headers.get(name) {
            Some(bytes) => Some(decode_header_value(bytes)),
            None => None,
        }
    }

    fn body(&self) -> (body: &[u8]) {
        self.0.body.as_slice()
    }
}

impl TryFrom<NeutralResponse> for SpinResponse {
    type Error = EncodingError;

    /// Makes a Spin response of a neutral one. It fails on the first
    /// header whose value Spin cannot encode, and names that header.
    fn try_from(value: NeutralResponse) -> (result: Result<Self, EncodingError>)
        ensures
            match result {
                Ok(resp) => converted_response(value@) == Ok::<ResponseModel, Seq<char>>(
                    resp.model(),
                ),
                Err(e) => converted_response(value@) == Err::<ResponseModel, Seq<char>>(
                    e.header@,
                ),
            },
    {
        match NativeResponse::from_neutral(value) {
            Ok(native) => Ok(SpinResponse(native)),
            Err(e) => Err(e),
        }
    }
}

impl TryFromSpecImpl<NeutralResponse> for SpinResponse {
    /// The conversion makes its strings anew, so `try_from` states its
    /// result over views and not as one fixed value.
    open spec fn obeys_try_from_spec() -> bool {
        false
    }

    open spec fn try_from_spec(value: NeutralResponse) -> Result<Self, EncodingError> {
        arbitrary()
    }
}

impl From<NativeResponse> for SpinResponse {
    /// Wraps a response that Spin holds. This never fails.
    fn from(resp: NativeResponse) -> (wrapped: Self) {
        SpinResponse(resp)
    }
}

impl FromSpecImpl<NativeResponse> for SpinResponse {
    open spec fn obeys_from_spec() -> bool {
        true
    }

    open spec fn from_spec(resp: NativeResponse) -> Self {
        SpinResponse(resp)
    }
}

impl From<SpinResponse> for NativeResponse {
    /// Hands the Spin response out again.
    fn from(resp: SpinResponse) -> (native: Self) {
        resp.0
    }
}

impl FromSpecImpl<SpinResponse> for NativeResponse {
    open spec fn obeys_from_spec() -> bool {
        true
    }

    open spec fn from_spec(resp: SpinResponse) -> Self {
        resp.0
    }
}

/// The Spin response builder behind [`ResponseBuilder`].
#[derive(Debug, Clone, PartialEq, Eq)]
pub struct SpinResponseBuilder(pub NativeResponse);

impl ResponseBuilder for SpinResponseBuilder {
    type Resp = SpinResponse;

    open spec fn pending(&self) -> ResponseModel {
        self.0@
    }

    fn new() -> (builder: Self) {
        SpinResponseBuilder(NativeResponse::new())
    }

    fn status(self, status: u16) -> (builder: Self) {
        SpinResponseBuilder(self.0.with_status(status))
    }

    fn header(self, name: &str, value: &str) -> (builder: Self) {
        SpinResponseBuilder(self.0.with_header(name, value))
    }

    fn body(self, body: Vec<u8>) -> (builder: Self) {
        SpinResponseBuilder(self.0.with_body(body))
    }

    fn build(self) -> (response: SpinResponse) {
        SpinResponse(self.0)
    }
}

/// A handler made of a function on Spin requests and responses.
pub struct SpinHandler<F>(pub F);

impl<F> Handler for SpinHandler<F> where
    F: Fn(NativeRequest) -> NativeResponse + Send + Sync + 'static,
 {
    type Req = SpinRequest;

    type Resp = SpinResponse;

    /// The handler may be called where the function may.
    open spec fn accepts(&self, req: SpinRequest) -> bool {
        call_requires(self.0, (req.0,))
    }

    /// The handler gives what the function gives, wrapped.
    open spec fn answers(&self, req: SpinRequest, resp: SpinResponse) -> bool {
        call_ensures(self.0, (req.0,), resp.0)
    }

    fn handle(&self, req: SpinRequest) -> (resp: SpinResponse) {
        SpinResponse((self.0)(req.0))
    }
}

/// Makes a handler of a function on Spin requests and responses.
pub fn spin_handler<F>(f: F) -> (handler: SpinHandler<F>) where
    F: Fn(NativeRequest) -> NativeResponse + Send + Sync + 'static,

    ensures
        handler.0 == f,
{
    SpinHandler(f)
}

/// Wrapping is total: every request and every response that Spin holds can
/// be wrapped, and the wrapped value shows that very message.
pub proof fn lemma_wrap_is_total(request: NativeRequest, response: NativeResponse)
    ensures
        call_requires(<SpinRequest as From<NativeRequest>>::from, (request,)),
        forall|wrapped: SpinRequest|
            call_ensures(<SpinRequest as From<NativeRequest>>::from, (request,), wrapped)
                ==> wrapped.model() == request@,
        call_requires(<SpinResponse as From<NativeResponse>>::from, (response,)),
        forall|wrapped: SpinResponse|
            call_ensures(<SpinResponse as From<NativeResponse>>::from, (response,), wrapped)
                ==> wrapped.model() == response@,
{
}

} // verus!
