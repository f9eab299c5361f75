//! What holds of every message: the laws that the conversions, the header
//! lookups and the response builder obey.

use crate::headers::{
    find, find_from, lemma_absent_iff_no_match, lemma_find_with_field,
    lemma_lookup_ignores_case, same_name, with_field, Fields,
};
use crate::model::{
    coerced_status, converted_request, converted_response, fresh_response, header_text,
    is_status, offending_from, offending_header, path_of_uri, NeutralRequestModel,
    ResponseModel, DEFAULT_STATUS,
};
use crate::text::{ascii_text, is_header_text, lemma_header_text_is_utf8, utf8_lossy};
use crate::{Request, Response};
use vstd::prelude::*;
use vstd::utf8::*;

verus! {

/// Whether a backend can encode the value of every field.
pub open spec fn all_encodable(fields: Fields) -> bool {
    forall|i: int| 0 <= i < fields.len() ==> is_header_text(#[trigger] fields[i].1)
}

/// The text a neutral message has under `name`: the first matching field's
/// value, read as ASCII.
pub open spec fn neutral_header_text(fields: Fields, name: Seq<char>) -> Option<Seq<char>> {
    match find(fields, name) {
        Some(value) => Some(ascii_text(value)),
        None => None,
    }
}

/// One step of a response builder.
pub enum BuilderStep {
    Status(u16),
    Header(Seq<char>, Seq<char>),
    Body(Seq<u8>),
}

/// The response a builder holds after `step`.
pub open spec fn after_step(response: ResponseModel, step: BuilderStep) -> ResponseModel {
    match step {
        BuilderStep::Status(status) => response.with_status(status),
        BuilderStep::Header(name, value) => response.with_header(name, value),
        BuilderStep::Body(body) => response.with_body(body),
    }
}

/// The response a builder holds after `steps`, taken in order.
pub open spec fn after_steps(response: ResponseModel, steps: Seq<BuilderStep>) -> ResponseModel
    decreases steps.len(),
{
    if steps.len() == 0 {
        response
    } else {
        after_step(after_steps(response, steps.drop_last()), steps.last())
    }
}

/// The status that the last status step of `steps` set.
pub open spec fn last_status(steps: Seq<BuilderStep>) -> Option<u16>
    decreases steps.len(),
{
    if steps.len() == 0 {
        None
    } else {
        match steps.last() {
            BuilderStep::Status(status) => Some(status),
            _ => last_status(steps.drop_last()),
        }
    }
}

/// The body that the last body step of `steps` set.
pub open spec fn last_body(steps: Seq<BuilderStep>) -> Option<Seq<u8>>
    decreases steps.len(),
{
    if steps.len() == 0 {
        None
    } else {
        match steps.last() {
            BuilderStep::Body(body) => Some(body),
            _ => last_body(steps.drop_last()),
        }
    }
}

/// The text that the last header step of `steps` for the name `name` set.
pub open spec fn last_header(steps: Seq<BuilderStep>, name: Seq<char>) -> Option<Seq<char>>
    decreases steps.len(),
{
    if steps.len() == 0 {
        None
    } else {
        match steps.last() {
            BuilderStep::Header(set, value) => if same_name(set, name) {
                Some(value)
            } else {
                last_header(steps.drop_last(), name)
            },
            _ => last_header(steps.drop_last(), name),
        }
    }
}

/// A conversion from neutral form succeeds exactly when a backend can
/// encode every header value.
pub proof fn lemma_conversion_succeeds_iff_encodable(fields: Fields)
    ensures
        offending_header(fields) is None <==> all_encodable(fields),
{
    lemma_offending_from(fields, 0);
}

proof fn lemma_offending_from(fields: Fields, start: int)
    requires
        0 <= start,
    ensures
        offending_from(fields, start) is None <==> forall|i: int|
            start <= i < fields.len() ==> is_header_text(#[trigger] fields[i].1),
    decreases fields.len() - start,
{
    if start < fields.len() {
        lemma_offending_from(fields, start + 1);
    }
}

/// A failed conversion names the first header that a backend cannot encode:
/// every field before the named one has a value that is text.
pub proof fn lemma_error_names_first_offender(fields: Fields)
    requires
        offending_header(fields) is Some,
    ensures
        exists|k: int|
            0 <= k < fields.len() && offending_header(fields) == Some(#[trigger] fields[k].0)
                && !is_header_text(fields[k].1) && all_encodable(fields.take(k)),
{
    lemma_first_offender_from(fields, 0);
    let k = choose|k: int|
        0 <= k < fields.len() && offending_from(fields, 0) == Some(#[trigger] fields[k].0)
            && !is_header_text(fields[k].1) && forall|j: int|
            0 <= j < k ==> is_header_text(#[trigger] fields[j].1);
    assert forall|j: int| 0 <= j < fields.take(k).len() implies is_header_text(
        #[trigger] fields.take(k)[j].1,
    ) by {
        assert(fields.take(k)[j] == fields[j]);
    }
}

proof fn lemma_first_offender_from(fields: Fields, start: int)
    requires
        0 <= start,
        offending_from(fields, start) is Some,
    ensures
        exists|k: int|
            start <= k < fields.len() && offending_from(fields, start) == Some(
                #[trigger] fields[k].0,
            ) && !is_header_text(fields[k].1) && forall|j: int|
                start <= j < k ==> is_header_text(#[trigger] fields[j].1),
    decreases fields.len() - start,
{
    if start < fields.len() && is_header_text(fields[start].1) {
        lemma_first_offender_from(fields, start + 1);
        let k = choose|k: int|
            start + 1 <= k < fields.len() && offending_from(fields, start + 1) == Some(
                #[trigger] fields[k].0,
            ) && !is_header_text(fields[k].1) && forall|j: int|
                start + 1 <= j < k ==> is_header_text(#[trigger] fields[j].1);
        assert forall|j: int| start <= j < k implies is_header_text(#[trigger] fields[j].1) by {}
    }
}

proof fn lemma_found_is_a_field(fields: Fields, name: Seq<char>, start: int)
    requires
        0 <= start,
        find_from(fields, name, start) is Some,
    ensures
        exists|i: int|
            start <= i < fields.len() && find_from(fields, name, start) == Some(
                #[trigger] fields[i].1,
            ),
    decreases fields.len() - start,
{
    if start < fields.len() && !same_name(fields[start].0, name) {
        lemma_found_is_a_field(fields, name, start + 1);
    }
}

/// Round trip of a request: where a backend can encode every header value of
/// a neutral request, the conversion succeeds, and the request it gives has
/// the method and the body of the neutral one, the path of its URI and,
/// under every name, the text that the neutral one has there.
pub proof fn lemma_request_round_trip(msg: NeutralRequestModel, name: Seq<char>)
    requires
        all_encodable(msg.headers),
    ensures
        converted_request(msg) is Ok,
        converted_request(msg)->Ok_0.method == msg.method,
        converted_request(msg)->Ok_0.path == path_of_uri(msg.uri),
        converted_request(msg)->Ok_0.body == msg.body,
        header_text(converted_request(msg)->Ok_0.headers, name) == neutral_header_text(
            msg.headers,
            name,
        ),
{
    lemma_conversion_succeeds_iff_encodable(msg.headers);
    lemma_encodable_headers_read_back(msg.headers, name);
}

/// Round trip of a response: where a backend can encode every header value
/// of a neutral response, the conversion succeeds, and the response it gives
/// has the body of the neutral one, under every name the text that the
/// neutral one has there, and its status where that is a status code (and
/// 500 where it is not).
pub proof fn lemma_response_round_trip(msg: ResponseModel, name: Seq<char>)
    requires
        all_encodable(msg.headers),
    ensures
        converted_response(msg) is Ok,
        converted_response(msg)->Ok_0.reported_status() == coerced_status(msg.status),
        is_status(msg.status) ==> converted_response(msg)->Ok_0.reported_status() == msg.status,
        converted_response(msg)->Ok_0.body == msg.body,
        header_text(converted_response(msg)->Ok_0.headers, name) == neutral_header_text(
            msg.headers,
            name,
        ),
{
    lemma_conversion_succeeds_iff_encodable(msg.headers);
    lemma_encodable_headers_read_back(msg.headers, name);
}

proof fn lemma_encodable_headers_read_back(fields: Fields, name: Seq<char>)
    requires
        all_encodable(fields),
    ensures
        header_text(fields, name) == neutral_header_text(fields, name),
{
    if find(fields, name) is Some {
        lemma_found_is_a_field(fields, name, 0);
        lemma_header_text_is_utf8(find(fields, name)->Some_0);
    }
}

/// Builder composition: after any steps, in any order, the response has the
/// status and the body that were set last (200 and the empty body where
/// none was), and under every name the text of the last header step for
/// that name, if there was one. A status in 100..=599 is also the status
/// that the response reports.
pub proof fn lemma_builder_composition(steps: Seq<BuilderStep>, name: Seq<char>)
    ensures
        after_steps(fresh_response(), steps).status == match last_status(steps) {
            Some(status) => status,
            None => DEFAULT_STATUS,
        },
        after_steps(fresh_response(), steps).reported_status() == match last_status(steps) {
            Some(status) => coerced_status(status),
            None => DEFAULT_STATUS,
        },
        after_steps(fresh_response(), steps).body == match last_body(steps) {
            Some(body) => body,
            None => Seq::empty(),
        },
        header_text(after_steps(fresh_response(), steps).headers, name) == last_header(
            steps,
            name,
        ),
    decreases steps.len(),
{
    if steps.len() > 0 {
        let before = after_steps(fresh_response(), steps.drop_last());
        lemma_builder_composition(steps.drop_last(), name);
        match steps.last() {
            BuilderStep::Header(set, value) => {
                lemma_header_set_then_read(before.headers, set, value, name);
            },
            _ => {},
        }
    }
}

/// A header that was set is read back as the text it was set to, under its
/// name in any case, and setting it leaves the headers of other names as
/// they were.
pub proof fn lemma_header_set_then_read(
    fields: Fields,
    set: Seq<char>,
    value: Seq<char>,
    name: Seq<char>,
)
    ensures
        header_text(with_field(fields, set, encode_utf8(value)), name) == if same_name(
            set,
            name,
        ) {
            Some(value)
        } else {
            header_text(fields, name)
        },
{
    lemma_find_with_field(fields, set, encode_utf8(value), name);
    encode_utf8_valid_utf8(value);
    encode_utf8_decode_utf8(value);
}

/// Header names are case-insensitive: names that differ only in the case of
/// ASCII letters read the same text from every message.
pub proof fn lemma_header_ignores_case(fields: Fields, a: Seq<char>, b: Seq<char>)
    requires
        same_name(a, b),
    ensures
        header_text(fields, a) == header_text(fields, b),
{
    lemma_lookup_ignores_case(fields, a, b);
}

/// An absent header reads as no value: a lookup gives `None` exactly when no
/// field of the message has a matching name.
pub proof fn lemma_absent_header(fields: Fields, name: Seq<char>)
    ensures
        header_text(fields, name) is None <==> forall|i: int|
            0 <= i < fields.len() ==> !same_name(#[trigger] fields[i].0, name),
{
    lemma_absent_iff_no_match(fields, name);
}

/// Lossy decoding: a header whose bytes are not UTF-8 still reads as text,
/// namely as the lossy decoding of its bytes.
pub proof fn lemma_lossy_decode(fields: Fields, name: Seq<char>)
    requires
        find(fields, name) is Some,
        !valid_utf8(find(fields, name)->Some_0),
    ensures
        header_text(fields, name) == Some(utf8_lossy(find(fields, name)->Some_0)),
{
}

/// Reading a request never fails: each accessor may be called on every
/// request of every backend, with any header name.
pub proof fn lemma_request_reads_are_total<R: Request>(req: &R, name: &str)
    ensures
        call_requires(R::method, (req,)),
        call_requires(R::path, (req,)),
        call_requires(R::header, (req, name)),
        call_requires(R::body, (req,)),
{
}

/// Reading a response never fails: each accessor may be called on every
/// response of every backend, with any header name.
pub proof fn lemma_response_reads_are_total<R: Response>(resp: &R, name: &str)
    ensures
        call_requires(R::status, (resp,)),
        call_requires(R::header, (resp, name)),
        call_requires(R::body, (resp,)),
{
}

} // verus!
