//! Recognising an event stream by its content type, and reading the `Last-Event-ID`
//! request header.

use core::str::Utf8Error;
use http::{HeaderMap, HeaderValue};
use vstd::prelude::*;
use vstd::string::StringExecFns;
use vstd::string::StringSliceAdditionalSpecFns;
use vstd::utf8::{decode_utf8, valid_utf8};

verus! {

/// The type and subtype that the `mime` crate reads out of a media type, both in lower
/// case, or `None` where it rejects the text.
pub uninterp spec fn parsed_media_type(value: Seq<char>) -> Option<(Seq<char>, Seq<char>)>;

/// Parses `value` with `mime::Mime::from_str` and hands out what `Mime::type_` and
/// `Mime::subtype` give for it. Nothing is claimed of the parser but that its answer
/// depends on the text alone; `parsed_media_type` is the name of that answer.
#[verifier::external_body]
fn parse_media_type(value: &str) -> (r: Option<(String, String)>)
    ensures
        match r {
            Some(pair) => parsed_media_type(value@) == Some((pair.0@, pair.1@)),
            None => parsed_media_type(value@) is None,
        },
{
    match value.parse::<mime::Mime>() {
        Ok(m) => Some((m.type_().as_str().to_owned(), m.subtype().as_str().to_owned())),
        Err(_) => None,
    }
}

/// Whether a type and a subtype are those of an event stream.
pub open spec fn is_event_stream(type_: Seq<char>, subtype: Seq<char>) -> bool {
    type_ == "text"@ && subtype == "event-stream"@
}

/// Whether a parsed media type is `text/event-stream`. A text that did not parse is not.
pub open spec fn is_sse_media_type(parsed: Option<(Seq<char>, Seq<char>)>) -> bool {
    match parsed {
        Some(pair) => is_event_stream(pair.0, pair.1),
        None => false,
    }
}

/// Whether the type `type_` with the subtype `subtype` is `text/event-stream`.
pub fn media_type_is_sse(type_: &String, subtype: &String) -> (r: bool)
    ensures
        r == is_event_stream(type_@, subtype@),
{
    let text = String::from_str("text");
    let event_stream = String::from_str("event-stream");
    *type_ == text && *subtype == event_stream
}

/// Whether a `Content-Type` value names an event stream: it must parse as a media type
/// whose type is `text` and whose subtype is `event-stream`. Parameters do not matter.
pub fn content_type_value_is_sse(value: &str) -> (r: bool)
    ensures
        r == is_sse_media_type(parsed_media_type(value@)),
{
    match parse_media_type(value) {
        Some(pair) => media_type_is_sse(&pair.0, &pair.1),
        None => false,
    }
}

/// The header map of the `http` crate.
#[verifier::external_type_specification]
#[verifier::external_body]
#[verifier::reject_recursive_types(T)]
pub struct ExHeaderMap<T>(HeaderMap<T>);

/// A header value of the `http` crate.
#[verifier::external_type_specification]
#[verifier::external_body]
pub struct ExHeaderValue(HeaderValue);

/// The error of `core::str::from_utf8`.
#[verifier::external_type_specification]
#[verifier::external_body]
pub struct ExUtf8Error(Utf8Error);

/// What a header map holds, as far as a lookup can see: for each header name that has
/// a value, in the lower-case form in which the map keeps names, the bytes of the first
/// value stored under it.
pub uninterp spec fn header_entries(headers: HeaderMap<HeaderValue>) -> Map<Seq<char>, Seq<u8>>;

/// A letter, a digit or a hyphen.
pub open spec fn is_name_char(c: char) -> bool {
    ('a' <= c && c <= 'z') || ('A' <= c && c <= 'Z') || ('0' <= c && c <= '9') || c == '-'
}

/// A header name of letters, digits and hyphens, at most 64 characters long.
pub open spec fn is_plain_name(name: Seq<char>) -> bool {
    &&& 1 <= name.len() <= 64
    &&& forall|i: int| 0 <= i < name.len() ==> is_name_char(#[trigger] name[i])
}

/// The lower-case form of an ASCII character.
pub open spec fn lower_char(c: char) -> char {
    if 'A' <= c && c <= 'Z' {
        ((c as u8) + 32) as char
    } else {
        c
    }
}

/// The lower-case form of a header name.
pub open spec fn lower_name(name: Seq<char>) -> Seq<char> {
    name.map_values(|c: char| lower_char(c))
}

/// The bytes that a lookup of `name` finds in `entries`.
pub open spec fn lookup(entries: Map<Seq<char>, Seq<u8>>, name: Seq<char>) -> Option<Seq<u8>> {
    if entries.dom().contains(lower_name(name)) {
        Some(entries[lower_name(name)])
    } else {
        None
    }
}

/// The header `Last-Event-ID` is looked for under the name `last-event-id`.
pub proof fn lemma_last_event_id_name()
    ensures
        is_plain_name(crate::LAST_EVENT_ID_HEADER_KEY@),
        lower_name(crate::LAST_EVENT_ID_HEADER_KEY@) == "last-event-id"@,
{
    reveal_strlit("Last-Event-ID");
    reveal_strlit("last-event-id");
}

/// Calls `HeaderMap::get` with a name given as text and hands out the bytes of the value
/// found (`HeaderValue::as_bytes`). For a name of at most 64 letters, digits and hyphens
/// the map looks under the name's lower-case form and returns the first value stored
/// there, or `None` where nothing is stored under it.
#[verifier::external_body]
fn first_value<'a>(headers: &'a HeaderMap<HeaderValue>, name: &str) -> (r: Option<&'a [u8]>)
    requires
        is_plain_name(name@),
    ensures
        match r {
            Some(bytes) => lookup(header_entries(*headers), name@) == Some(bytes@),
            None => lookup(header_entries(*headers), name@) is None,
        },
{
    match headers.get(name) {
        Some(value) => Some(value.as_bytes()),
        None => None,
    }
}

/// `core::str::from_utf8` succeeds exactly on valid UTF-8, and the text it returns is
/// made of the bytes it was given.
pub assume_specification<'a>[ core::str::from_utf8 ](v: &'a [u8]) -> (r: Result<
    &'a str,
    Utf8Error,
>)
    ensures
        r is Ok <==> valid_utf8(v@),
        r matches Ok(s) ==> s.spec_bytes() == v@,
;

/// Whether the header found under `Content-Type` names an event stream: there must be
/// one, it must be valid UTF-8, and its text must be an event stream's media type.
pub open spec fn content_type_says_sse(found: Option<Seq<u8>>) -> bool {
    match found {
        Some(bytes) => valid_utf8(bytes) && is_sse_media_type(
            parsed_media_type(decode_utf8(bytes)),
        ),
        None => false,
    }
}

/// Whether a header value, where there is one, names an event stream.
pub fn header_value_is_sse(found: Option<&[u8]>) -> (r: bool)
    ensures
        r == content_type_says_sse(
            match found {
                Some(bytes) => Some(bytes@),
                None => None,
            },
        ),
{
    match found {
        Some(bytes) => match core::str::from_utf8(bytes) {
            Ok(value) => {
                proof {
                    vstd::utf8::encode_utf8_decode_utf8(value@);
                }
                content_type_value_is_sse(value)
            },
            Err(_) => false,
        },
        None => false,
    }
}

/// Whether the headers announce an event stream in `Content-Type`.
pub fn content_type_is_sse(headers: &HeaderMap<HeaderValue>) -> (r: bool)
    ensures
        r == content_type_says_sse(lookup(header_entries(*headers), "content-type"@)),
{
    proof {
        reveal_strlit("content-type");
    }
    header_value_is_sse(first_value(headers, "content-type"))
}

/// The text of a header value, where there is one: `Ok(None)` without a value, the
/// decoded text of a value that is valid UTF-8, and an error for any other value.
pub fn header_value_text(found: Option<&[u8]>) -> (r: Result<Option<String>, Utf8Error>)
    ensures
        match found {
            None => r == Ok::<Option<String>, Utf8Error>(None),
            Some(bytes) => if valid_utf8(bytes@) {
                r matches Ok(Some(text)) && text@ == decode_utf8(bytes@)
            } else {
                r is Err
            },
        },
{
    match found {
        Some(bytes) => match core::str::from_utf8(bytes) {
            Ok(value) => {
                proof {
                    vstd::utf8::encode_utf8_decode_utf8(value@);
                }
                Ok(Some(String::from_str(value)))
            },
            Err(e) => Err(e),
        },
        None => Ok(None),
    }
}

/// The value of the `Last-Event-ID` header: `Ok(None)` where the header is absent, its
/// text where it is valid UTF-8, and an error where it is present but not valid UTF-8.
pub fn get_last_event_id(headers: &HeaderMap<HeaderValue>) -> (r: Result<
    Option<String>,
    Utf8Error,
>)
    ensures
        match lookup(header_entries(*headers), crate::LAST_EVENT_ID_HEADER_KEY@) {
            None => r == Ok::<Option<String>, Utf8Error>(None),
            Some(bytes) => if valid_utf8(bytes) {
                r matches Ok(Some(text)) && text@ == decode_utf8(bytes)
            } else {
                r is Err
            },
        },
{
    proof {
        reveal_strlit("Last-Event-ID");
    }
    header_value_text(first_value(headers, crate::LAST_EVENT_ID_HEADER_KEY))
}

} // verus!
