//! JSON bodies, for any request, response and response builder of this
//! crate.

use crate::model::ResponseModel;
use crate::{Request, Response, ResponseBuilder};
use serde::de::DeserializeOwned;
use serde::ser::Serialize;
use vstd::prelude::*;

verus! {

#[verifier::external_type_specification]
#[verifier::external_body]
pub struct ExJsonError(serde_json::Error);

/// Decodes `bytes` with `serde_json::from_slice`. What comes back is up to
/// the target type's `Deserialize` impl, so nothing is stated of it.
#[verifier::external_body]
fn from_json_bytes<T: DeserializeOwned>(bytes: &[u8]) -> Result<T, serde_json::Error> {
    serde_json::from_slice(bytes)
}

/// Encodes `value` with `serde_json::to_vec`. What comes back is up to the
/// value's `Serialize` impl, so nothing is stated of it.
#[verifier::external_body]
fn to_json_bytes<T: Serialize>(value: &T) -> Result<Vec<u8>, serde_json::Error> {
    serde_json::to_vec(value)
}

/// The response a builder yields for a JSON body: what it had so far, with
/// the header `content-type: application/json` and `bytes` as the body.
pub open spec fn json_response(pending: ResponseModel, bytes: Seq<u8>) -> ResponseModel {
    pending.with_header("content-type"@, "application/json"@).with_body(bytes)
}

/// JSON bodies of requests.
pub trait RequestExt: Request {
    /// The request body decoded as JSON into a `T`, or the decoder's error.
    /// The body is decoded whatever the request's content type says.
    fn json_body<T: DeserializeOwned>(&self) -> (result: Result<T, serde_json::Error>)
        ensures
            json_decoding(self.model().body, result),
    {
        from_json_bytes(self.body())
    }
}

impl<R: Request> RequestExt for R {

}

/// JSON bodies of responses.
pub trait ResponseExt: Response {
    /// The response body decoded as JSON into a `T`, or the decoder's error.
    /// The body is decoded whatever the response's content type says.
    fn json_body<T: DeserializeOwned>(&self) -> (result: Result<T, serde_json::Error>)
        ensures
            json_decoding(self.model().body, result),
    {
        from_json_bytes(self.body())
    }
}

impl<R: Response> ResponseExt for R {

}

/// JSON bodies for response builders.
pub trait ResponseBuilderExt: ResponseBuilder {
    /// Ends the builder with `value` as a JSON body: the response has the
    /// header `content-type: application/json` and the encoded value as its
    /// body. Where the value cannot be encoded, the encoder's error comes
    /// back and no response is built.
    fn json<T: Serialize>(self, value: &T) -> (result: Result<Self::Resp, serde_json::Error>)
        ensures
            result matches Ok(response) ==> exists|bytes: Seq<u8>|
                response.model() == json_response(self.pending(), bytes),
            exists|encoded: Result<Vec<u8>, serde_json::Error>|
                #[trigger] json_encoding(value, encoded) && match encoded {
                    Ok(bytes) => result matches Ok(response) && response.model()
                        == json_response(self.pending(), bytes@),
                    Err(e) => result == Err::<Self::Resp, serde_json::Error>(e),
                },
    {
        let encoded = to_json_bytes(value);
        assert(json_encoding(value, encoded));
        self.json_encoded(encoded)
    }

    /// Ends the builder with the outcome of a JSON encoding: on `Ok(bytes)`
    /// the response has the header `content-type: application/json` and
    /// `bytes` as its body, and on `Err(e)` the error `e` comes back.
    fn json_encoded(self, encoded: Result<Vec<u8>, serde_json::Error>) -> (result: Result<
        Self::Resp,
        serde_json::Error,
    >)
        ensures
            match encoded {
                Ok(bytes) => result matches Ok(response) && response.model() == json_response(
                    self.pending(),
                    bytes@,
                ),
                Err(e) => result == Err::<Self::Resp, serde_json::Error>(e),
            },
    {
        match encoded {
            Ok(bytes) => Ok(self.header("content-type", "application/json").body(bytes).build()),
            Err(e) => Err(e),
        }
    }
}

impl<B: ResponseBuilder> ResponseBuilderExt for B {

}

/// Whether `outcome` is what the JSON decoder gave for `bytes`, decoding into
/// a `T`. Which outcome that is lies with `T`'s `Deserialize` impl; this says
/// only that it came of decoding these bytes.
pub closed spec fn json_decoding<T: DeserializeOwned>(
    bytes: Seq<u8>,
    outcome: Result<T, serde_json::Error>,
) -> bool {
    exists|slice: &[u8]| #[trigger]
        call_ensures(from_json_bytes::<T>, (slice,), outcome) && slice@ == bytes
}

/// Whether `outcome` is what the JSON encoder gave for `value`. Which outcome
/// that is lies with `T`'s `Serialize` impl; this says only that it came of
/// encoding this value.
pub closed spec fn json_encoding<T: Serialize>(
    value: &T,
    outcome: Result<Vec<u8>, serde_json::Error>,
) -> bool {
    call_ensures(to_json_bytes::<T>, (value,), outcome)
}

} // verus!
