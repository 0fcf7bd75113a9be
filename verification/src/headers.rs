//! The header fields of a request or a response.
//!
//! The fields live in the web framework's own multimap. This module names what
//! such a map holds and states, for each of the map's operations that the
//! pipeline uses, what it does to those contents. Those statements are taken
//! on trust; everything else in the crate is proved from them.

use crate::decimal::decimal_bytes;
use actix_web::http::{HeaderMap, HeaderName, HeaderValue};
use vstd::prelude::*;
use vstd::utf8::{encode_utf8, is_ascii_chars_encode_utf8};

verus! {

/// The web framework's header map. What it holds is known by
/// `header_entries` alone.
#[verifier::external_type_specification]
#[verifier::external_body]
pub struct ExHeaderMap(HeaderMap);

/// A header value of the web framework. The bytes that it holds are known by
/// `header_value_bytes` alone.
#[verifier::external_type_specification]
#[verifier::external_body]
pub struct ExHeaderValue(HeaderValue);

/// The bytes that a header value holds.
pub uninterp spec fn header_value_bytes(value: HeaderValue) -> Seq<u8>;

/// Header fields: each name that is present, in the lower-case form in which
/// a header map stores names, with the values under it in the map's own order
/// (the first is the one that a lookup yields).
pub type HeaderFields = Map<Seq<char>, Seq<Seq<u8>>>;

/// The fields that a header map holds.
pub uninterp spec fn header_entries(headers: HeaderMap) -> HeaderFields;

/// The longest header name, in bytes, that the map's name type takes, plus one.
pub const MAX_HEADER_NAME_LEN: usize = 65536;

/// The characters of a header name in its stored form: the token characters
/// that the name type accepts, letters in lower case only.
pub open spec fn is_header_name_char(c: char) -> bool {
    ||| 'a' <= c <= 'z'
    ||| '0' <= c <= '9'
    ||| c == '!' || c == '"' || c == '#' || c == '$' || c == '%' || c == '&' || c == '\''
    ||| c == '*' || c == '+' || c == '-' || c == '.'
    ||| c == '^' || c == '_' || c == '`' || c == '|' || c == '~'
}

/// A header name in the form in which a header map stores it.
pub open spec fn is_header_name(name: Seq<char>) -> bool {
    &&& 0 < name.len() < MAX_HEADER_NAME_LEN
    &&& forall|i: int| 0 <= i < name.len() ==> is_header_name_char(#[trigger] name[i])
}

/// A letter in lower case; every other character as it is.
pub open spec fn lower_char(c: char) -> char {
    if 'A' <= c <= 'Z' {
        ((c as u8) + 32) as char
    } else {
        c
    }
}

/// A name as a header map stores it: its letters in lower case.
pub open spec fn stored_form(name: Seq<char>) -> Seq<char> {
    name.map_values(|c: char| lower_char(c))
}

/// A name of `MAX_HEADER_NAME_LEN` bytes or more is no header name, whatever
/// the case of its letters.
pub proof fn lemma_long_name_is_no_header_name(name: Seq<char>)
    requires
        encode_utf8(name).len() >= MAX_HEADER_NAME_LEN,
    ensures
        !is_header_name(stored_form(name)),
{
    if is_header_name(stored_form(name)) {
        assert forall|i: int| 0 <= i < name.len() implies '\0' <= #[trigger] name[i]
            <= '\u{7f}' by {
            assert(is_header_name_char(stored_form(name)[i]));
        }
        is_ascii_chars_encode_utf8(name);
    }
}

/// A byte that may occur in a header value.
pub open spec fn is_header_value_byte(b: u8) -> bool {
    (b >= 32 && b != 127) || b == 9
}

/// Bytes that a header map takes as a value.
pub open spec fn is_header_value(value: Seq<u8>) -> bool {
    forall|i: int| 0 <= i < value.len() ==> is_header_value_byte(#[trigger] value[i])
}

/// A byte of visible ASCII text, or a tab.
pub open spec fn is_text_byte(b: u8) -> bool {
    (32 <= b < 127) || b == 9
}

/// Bytes that read as visible ASCII text.
pub open spec fn is_text(value: Seq<u8>) -> bool {
    forall|i: int| 0 <= i < value.len() ==> is_text_byte(#[trigger] value[i])
}

/// The values under a name once the map's `append` has added `value` to
/// `values`.
///
/// The map keeps a lone value apart from a list of several; when a second
/// value joins a lone one, the map stores the newcomer in front of it. From
/// then on values are added at the end. Whoever wants the new value last
/// has to see to that: see `proxy::add_headers_on_request`.
pub open spec fn appended_values(values: Seq<Seq<u8>>, value: Seq<u8>) -> Seq<Seq<u8>> {
    if values.len() == 1 {
        seq![value, values[0]]
    } else {
        values.push(value)
    }
}

/// The values stored under `name`, none if the name is absent.
pub open spec fn values_of(entries: HeaderFields, name: Seq<char>) -> Seq<Seq<u8>> {
    if entries.dom().contains(name) {
        entries[name]
    } else {
        Seq::empty()
    }
}

/// Calls `HeaderName::from_bytes` and hands out the name's `as_str`. The call
/// takes a name of token characters, letters in either case, and stores it
/// with its letters in lower case; it refuses every other.
#[verifier::external_body]
pub(crate) fn stored_name(name: &str) -> (stored: Option<String>)
    requires
        encode_utf8(name@).len() < MAX_HEADER_NAME_LEN,
    ensures
        match stored {
            Some(text) => is_header_name(text@) && text@ == stored_form(name@),
            None => !is_header_name(stored_form(name@)),
        },
{
    HeaderName::from_bytes(name.as_bytes()).ok().map(|stored| stored.as_str().to_string())
}

/// Calls `HeaderMap::remove` with the name as a string. The map turns the
/// string into a name and drops every value stored under it; a name that is
/// absent leaves the map as it was.
#[verifier::external_body]
pub(crate) fn remove_header(headers: &mut HeaderMap, name: &str)
    requires
        is_header_name(name@),
    ensures
        header_entries(*final(headers)) == header_entries(*old(headers)).remove(name@),
{
    headers.remove(name);
}

/// Calls `HeaderMap::insert` with a name made by `HeaderName::from_static` and
/// a value made by `HeaderValue::from` of the number, which writes it in
/// decimal. The new value takes the place of every value stored under the name.
#[verifier::external_body]
pub(crate) fn insert_number(headers: &mut HeaderMap, name: &'static str, number: usize)
    requires
        is_header_name(name@),
    ensures
        header_entries(*final(headers)) == header_entries(*old(headers)).insert(
            name@,
            seq![decimal_bytes(number as nat)],
        ),
{
    headers.insert(HeaderName::from_static(name), HeaderValue::from(number));
}

/// Calls `HeaderValue::from_str`. The call takes a text whose bytes may all
/// occur in a header value, and keeps those bytes; it refuses every other.
#[verifier::external_body]
pub(crate) fn text_value(text: &str) -> (made: Option<HeaderValue>)
    ensures
        match made {
            Some(value) => is_header_value(encode_utf8(text@)) && header_value_bytes(value)
                == encode_utf8(text@),
            None => !is_header_value(encode_utf8(text@)),
        },
{
    HeaderValue::from_str(text).ok()
}

/// Calls `HeaderMap::get_all` and hands out a copy of each value that it
/// yields: the values stored under the name, in the map's order, none where
/// the name is absent.
#[verifier::external_body]
pub(crate) fn values_under(headers: &HeaderMap, name: &str) -> (values: Vec<HeaderValue>)
    requires
        is_header_name(name@),
    ensures
        values@.len() == values_of(header_entries(*headers), name@).len(),
        forall|i: int|
            0 <= i < values@.len() ==> header_value_bytes(#[trigger] values@[i]) == values_of(
                header_entries(*headers),
                name@,
            )[i],
{
    headers.get_all(name).cloned().collect()
}

/// Calls `HeaderMap::insert` with a name made by `HeaderName::from_static`.
/// The value takes the place of every value stored under the name.
#[verifier::external_body]
pub(crate) fn insert_value(headers: &mut HeaderMap, name: &'static str, value: HeaderValue)
    requires
        is_header_name(name@),
    ensures
        header_entries(*final(headers)) == header_entries(*old(headers)).insert(
            name@,
            seq![header_value_bytes(value)],
        ),
{
    headers.insert(HeaderName::from_static(name), value);
}

/// Calls `HeaderMap::append` with a name made by `HeaderName::from_static`.
/// The values already stored under the name stay; where the new one comes to
/// stand among them is what `appended_values` says.
#[verifier::external_body]
pub(crate) fn append_value(headers: &mut HeaderMap, name: &'static str, value: HeaderValue)
    requires
        is_header_name(name@),
    ensures
        header_entries(*final(headers)) == header_entries(*old(headers)).insert(
            name@,
            appended_values(
                values_of(header_entries(*old(headers)), name@),
                header_value_bytes(value),
            ),
        ),
{
    headers.append(HeaderName::from_static(name), value);
}

/// Calls `HeaderMap::get` and then `HeaderValue::to_str` on what was found.
/// The lookup yields the first value under the name; `to_str` hands it out as
/// text where every byte is visible ASCII or a tab, and refuses it otherwise.
#[verifier::external_body]
pub(crate) fn first_text(headers: &HeaderMap, name: &str) -> (found: Option<String>)
    requires
        is_header_name(name@),
    ensures
        match found {
            Some(text) => {
                &&& header_entries(*headers).dom().contains(name@)
                &&& is_text(header_entries(*headers)[name@][0])
                &&& encode_utf8(text@) == header_entries(*headers)[name@][0]
            },
            None => !header_entries(*headers).dom().contains(name@) || !is_text(
                header_entries(*headers)[name@][0],
            ),
        },
{
    headers.get(name).and_then(|value| value.to_str().ok()).map(|text| text.to_string())
}

} // verus!
