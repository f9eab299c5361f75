//! Text and bytes: how header bytes are read as text, which bytes may stand
//! in a header value that is handed to a backend, and the path of a URI.

use std::borrow::Cow;
use vstd::prelude::*;
use vstd::utf8::*;

verus! {

/// The text that `String::from_utf8_lossy` makes of `bytes`: the decoded
/// characters, with U+FFFD in place of each malformed part.
pub uninterp spec fn utf8_lossy(bytes: Seq<u8>) -> Seq<char>;

/// The path component that the `http` crate finds in `uri`, or `None` where it
/// does not accept `uri` as a URI.
pub uninterp spec fn uri_path(uri: Seq<char>) -> Option<Seq<char>>;

#[verifier::external_type_specification]
#[verifier::external_body]
pub struct ExUtf8Error(core::str::Utf8Error);

/// `core::str::from_utf8` succeeds exactly on well-formed UTF-8, and the
/// string slice it then returns consists of the very bytes it was given.
pub assume_specification<'a>[ core::str::from_utf8 ](v: &'a [u8]) -> (res: Result<
    &'a str,
    core::str::Utf8Error,
>)
    ensures
        res is Ok <==> valid_utf8(v@),
        res matches Ok(s) ==> encode_utf8(s@) == v@,
;

/// `String::from_utf8_lossy` is a function of the bytes alone; its result is
/// known here only by the name [`utf8_lossy`].
pub assume_specification<'a>[ String::from_utf8_lossy ](v: &'a [u8]) -> (res: Cow<'a, str>)
    ensures
        res@ == utf8_lossy(v@),
;

/// The text a header value is read as: the decoded characters where the bytes
/// are well-formed UTF-8, and the lossy decoding otherwise.
pub open spec fn decoded_text(bytes: Seq<u8>) -> Seq<char> {
    if valid_utf8(bytes) {
        decode_utf8(bytes)
    } else {
        utf8_lossy(bytes)
    }
}

/// Reads header bytes as text. Never fails: bytes that are not UTF-8 are
/// decoded lossily, each malformed part becoming a replacement character.
pub fn decode_header_value<'a>(bytes: &'a [u8]) -> (text: Cow<'a, str>)
    ensures
        text@ == decoded_text(bytes@),
{
    match core::str::from_utf8(bytes) {
        Ok(s) => {
            proof {
                encode_utf8_decode_utf8(s@);
            }
            Cow::Borrowed(s)
        },
        Err(_) => String::from_utf8_lossy(bytes),
    }
}

/// Whether `b` may stand in a header value that is handed on as text: a
/// visible ASCII character, a space or a horizontal tab.
pub open spec fn is_text_byte(b: u8) -> bool {
    (32 <= b < 127) || b == 9
}

/// Whether every byte of `value` may stand in a header value that is handed
/// on as text.
pub open spec fn is_header_text(value: Seq<u8>) -> bool {
    forall|i: int| 0 <= i < value.len() ==> is_text_byte(#[trigger] value[i])
}

/// The characters that ASCII bytes stand for, one for one.
pub open spec fn ascii_text(bytes: Seq<u8>) -> Seq<char> {
    Seq::new(bytes.len(), |i: int| bytes[i] as char)
}

/// Text bytes are UTF-8, and read as UTF-8 they are the same text.
pub proof fn lemma_header_text_is_utf8(value: Seq<u8>)
    requires
        is_header_text(value),
    ensures
        is_ascii_chars(ascii_text(value)),
        encode_utf8(ascii_text(value)) == value,
        valid_utf8(value),
        decode_utf8(value) == ascii_text(value),
        decoded_text(value) == ascii_text(value),
{
    let text = ascii_text(value);
    assert forall|i: int| 0 <= i < text.len() implies '\0' <= #[trigger] text[i] <= '\u{7f}' by {
        assert(is_text_byte(value[i]));
    }
    is_ascii_chars_encode_utf8(text);
    assert forall|i: int| 0 <= i < value.len() implies encode_utf8(text)[i] == value[i] by {
        assert(is_text_byte(value[i]));
        assert(text[i] as u8 == encode_utf8(text)[i]);
    }
    assert(encode_utf8(text) =~= value);
    encode_utf8_valid_utf8(text);
    encode_utf8_decode_utf8(text);
}

/// Reads `value` as the text of a header value, through
/// `http::HeaderValue::from_bytes` and `HeaderValue::to_str`. The first
/// refuses control bytes other than the tab, the second every byte that is
/// not visible ASCII, a space or a tab; so the text comes back exactly when
/// all bytes are of that kind, and it is then the same bytes read as ASCII.
#[verifier::external_body]
pub(crate) fn header_value_text(value: &[u8]) -> (text: Option<String>)
    ensures
        text is Some <==> is_header_text(value@),
        text matches Some(t) ==> t@ == ascii_text(value@),
{
    match http::HeaderValue::from_bytes(value) {
        Ok(parsed) => match parsed.to_str() {
            Ok(t) => Some(t.to_owned()),
            Err(_) => None,
        },
        Err(_) => None,
    }
}

/// Parses `uri` with `http::Uri` and hands out the path component it found,
/// or `None` where the parser refuses `uri`.
#[verifier::external_body]
pub(crate) fn parse_uri_path(uri: &str) -> (path: Option<String>)
    ensures
        match path {
            Some(p) => uri_path(uri@) == Some(p@),
            None => uri_path(uri@) is None,
        },
{
    match uri.parse::<http::Uri>() {
        Ok(parsed) => Some(parsed.path().to_owned()),
        Err(_) => None,
    }
}

} // verus!
