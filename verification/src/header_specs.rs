//! What this crate assumes of the header types of `reqwest::header`.
//!
//! Nothing in this file is proved. Each contract restates what the source of
//! the `http` crate, which `reqwest` re-exports, shows of the function named.

use crate::assoc::{distinct_names, put};
use reqwest::header::{
    HeaderMap, HeaderName, HeaderValue, InvalidHeaderName, InvalidHeaderValue, ToStrError,
};
use vstd::prelude::*;
use vstd::utf8::encode_utf8;

verus! {

/// `reqwest::header::HeaderName`: a validated, lower-case header name.
#[verifier::external_type_specification]
#[verifier::external_body]
pub struct ExHeaderName(HeaderName);

/// `reqwest::header::HeaderValue`: the validated bytes of a header value.
#[verifier::external_type_specification]
#[verifier::external_body]
pub struct ExHeaderValue(HeaderValue);

/// `reqwest::header::InvalidHeaderName`: the error of `HeaderName::from_bytes`.
#[verifier::external_type_specification]
#[verifier::external_body]
pub struct ExInvalidHeaderName(InvalidHeaderName);

/// `reqwest::header::InvalidHeaderValue`: the error of `HeaderValue::from_str`.
#[verifier::external_type_specification]
#[verifier::external_body]
pub struct ExInvalidHeaderValue(InvalidHeaderValue);

/// `reqwest::header::ToStrError`: the error of `HeaderValue::to_str`.
#[verifier::external_type_specification]
#[verifier::external_body]
pub struct ExToStrError(ToStrError);

/// `reqwest::header::HeaderMap`: the header collection of a request or response.
#[verifier::external_type_specification]
#[verifier::external_body]
#[verifier::reject_recursive_types(T)]
pub struct ExHeaderMap<T>(HeaderMap<T>);

/// The text that a header name holds, as `HeaderName::as_str` gives it.
pub uninterp spec fn header_name_text(name: HeaderName) -> Seq<char>;

/// The bytes that a header value holds, as `HeaderValue::as_bytes` gives them.
pub uninterp spec fn header_value_bytes(value: HeaderValue) -> Seq<u8>;

/// The name and value pairs that a header map holds, in the order in which
/// `HeaderMap::iter` yields them.
pub uninterp spec fn header_entries(map: HeaderMap) -> Seq<(Seq<char>, Seq<u8>)>;

/// The longest header name that is accepted, in bytes.
pub const MAX_NAME_LEN: usize = 65535;

/// A header map that holds fewer entries than this takes one more. The map
/// refuses to grow past 32768 slots, and it asks to grow only when three
/// quarters of its slots are taken or, after long probe sequences, a fifth:
/// with fewer entries than this neither request can be refused.
pub const MAX_HEADERS: usize = 6554;

/// The bytes that `HeaderName::from_bytes` takes in a name: letters, digits
/// and `! # $ % & ' * + - . ^ _ ` | ~`, which are the token characters of
/// HTTP, and the double quote.
pub open spec fn is_name_byte(b: u8) -> bool {
    ||| 33 <= b <= 39
    ||| b == 42
    ||| b == 43
    ||| b == 45
    ||| b == 46
    ||| 48 <= b <= 57
    ||| 65 <= b <= 90
    ||| 94 <= b <= 122
    ||| b == 124
    ||| b == 126
}

/// The byte with an upper-case letter made lower-case.
pub open spec fn lower_byte(b: u8) -> u8 {
    if 65 <= b <= 90 {
        (b + 32) as u8
    } else {
        b
    }
}

/// The bytes are a header name: between 1 and 65535 name bytes.
pub open spec fn is_header_name(src: Seq<u8>) -> bool {
    &&& 0 < src.len() <= MAX_NAME_LEN
    &&& forall|i: int| 0 <= i < src.len() ==> is_name_byte(#[trigger] src[i])
}

/// The name as it is stored: each byte as a character, in lower case.
pub open spec fn normalized(src: Seq<u8>) -> Seq<char> {
    Seq::new(src.len(), |i: int| lower_byte(src[i]) as char)
}

/// The bytes that may stand in a header value: tab, and everything from the
/// space upwards but DEL.
pub open spec fn is_value_byte(b: u8) -> bool {
    b >= 32 && b != 127 || b == 9
}

/// The bytes are a header value.
pub open spec fn is_header_value(src: Seq<u8>) -> bool {
    forall|i: int| 0 <= i < src.len() ==> is_value_byte(#[trigger] src[i])
}

/// The bytes that a header value shows as text: tab and printable ASCII.
pub open spec fn is_visible_byte(b: u8) -> bool {
    b >= 32 && b < 127 || b == 9
}

/// Every byte of the value shows as text.
pub open spec fn is_visible(bytes: Seq<u8>) -> bool {
    forall|i: int| 0 <= i < bytes.len() ==> is_visible_byte(#[trigger] bytes[i])
}

/// ASCII bytes read as characters.
pub open spec fn ascii_text(bytes: Seq<u8>) -> Seq<char> {
    Seq::new(bytes.len(), |i: int| bytes[i] as char)
}

/// `HeaderName::from_bytes` accepts exactly the header names, and stores the
/// name in lower case.
pub assume_specification[ HeaderName::from_bytes ](src: &[u8]) -> (parsed: Result<
    HeaderName,
    InvalidHeaderName,
>)
    ensures
        parsed is Ok <==> is_header_name(src@),
        parsed matches Ok(name) ==> header_name_text(name) == normalized(src@),
;

/// `HeaderValue::from_str` accepts exactly the strings whose bytes are all
/// value bytes, and stores those bytes.
pub assume_specification[ HeaderValue::from_str ](src: &str) -> (parsed: Result<
    HeaderValue,
    InvalidHeaderValue,
>)
    ensures
        parsed is Ok <==> is_header_value(encode_utf8(src@)),
        parsed matches Ok(value) ==> header_value_bytes(value) == encode_utf8(src@),
;

/// `HeaderName::as_str` gives the text of the name.
pub assume_specification[ HeaderName::as_str ](name: &HeaderName) -> (text: &str)
    ensures
        text@ == header_name_text(*name),
;

/// `HeaderValue::to_str` gives the value as text where every byte of it is
/// visible, and fails otherwise.
pub assume_specification[ HeaderValue::to_str ](value: &HeaderValue) -> (text: Result<
    &str,
    ToStrError,
>)
    ensures
        text is Ok <==> is_visible(header_value_bytes(*value)),
        text matches Ok(t) ==> t@ == ascii_text(header_value_bytes(*value)),
;

/// `HeaderMap::new` makes a map without entries.
pub assume_specification[ HeaderMap::<HeaderValue>::new ]() -> (map: HeaderMap)
    ensures
        header_entries(map) == Seq::<(Seq<char>, Seq<u8>)>::empty(),
;

/// `HeaderMap::insert`, on a map in which no name occurs twice: a name that
/// the map holds keeps its place and gets the new value, a new name goes to
/// the end. The map panics when it cannot grow, which `MAX_HEADERS` excludes.
#[verifier::external_body]
pub(crate) fn insert_header(map: &mut HeaderMap, name: HeaderName, value: HeaderValue)
    requires
        distinct_names(header_entries(*old(map))),
        header_entries(*old(map)).len() < MAX_HEADERS,
    ensures
        header_entries(*final(map)) == put(
            header_entries(*old(map)),
            header_name_text(name),
            header_value_bytes(value),
        ),
{
    map.insert(name, value);
}

/// `HeaderMap::iter`: the entries of the map, in the map's order.
#[verifier::external_body]
pub(crate) fn header_pairs<'a>(map: &'a HeaderMap) -> (pairs: Vec<(&'a HeaderName, &'a HeaderValue)>)
    ensures
        pairs@.len() == header_entries(*map).len(),
        forall|i: int|
            0 <= i < pairs@.len() ==> header_name_text(*(#[trigger] pairs@[i]).0)
                == header_entries(*map)[i].0 && header_value_bytes(*pairs@[i].1)
                == header_entries(*map)[i].1,
{
    map.iter().collect()
}

} // verus!
