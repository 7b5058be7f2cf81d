//! Header maps of requests and replies.
use axum::http::{HeaderMap, HeaderValue};
use vstd::prelude::*;

verus! {

/// The header map of the `http` crate, as `axum` hands it on.
#[verifier::external_type_specification]
#[verifier::external_body]
#[verifier::reject_recursive_types(T)]
pub struct ExHeaderMap<T>(HeaderMap<T>);

/// One value of a header map.
#[verifier::external_type_specification]
#[verifier::external_body]
pub struct ExHeaderValue(HeaderValue);

/// For each header name, in lower case, its values in order.
pub type HeaderContents = Map<Seq<char>, Seq<Seq<u8>>>;

/// What a header map holds: for each name, in lower case, its values in order.
pub uninterp spec fn header_contents(map: HeaderMap<HeaderValue>) -> HeaderContents;

/// A map without headers.
pub open spec fn no_headers() -> HeaderContents {
    Map::empty()
}

/// A header name of at most 64 lower case letters, digits and hyphens.
pub open spec fn is_header_name(name: Seq<char>) -> bool {
    &&& 1 <= name.len() <= 64
    &&& forall|i: int|
        0 <= i < name.len() ==> {
            ||| 'a' <= #[trigger] name[i] <= 'z'
            ||| '0' <= name[i] <= '9'
            ||| name[i] == '-'
        }
}

/// The bytes that a header value shows as text: printable ASCII and the tab.
pub open spec fn visible(b: u8) -> bool {
    32 <= b < 127 || b == 9
}

/// Whether every byte of a header value shows as text.
pub open spec fn all_visible(bytes: Seq<u8>) -> bool {
    forall|i: int| 0 <= i < bytes.len() ==> visible(#[trigger] bytes[i])
}

/// Text whose characters are all bytes that a header value shows.
pub open spec fn is_header_text(text: Seq<char>) -> bool {
    forall|i: int| 0 <= i < text.len() ==> (' ' <= #[trigger] text[i] <= '~' || text[i] == '\t')
}

/// The bytes of ASCII text.
pub open spec fn ascii_bytes(text: Seq<char>) -> Seq<u8> {
    text.map_values(|c: char| c as u8)
}

/// The text of ASCII bytes.
pub open spec fn ascii_text(bytes: Seq<u8>) -> Seq<char> {
    bytes.map_values(|b: u8| b as char)
}

/// Whether a map holds so few names that one more is never refused.
pub open spec fn has_room(contents: HeaderContents) -> bool {
    contents.dom().finite() && contents.dom().len() < 1024
}

/// The contents with `text` as the only value of `name`.
pub open spec fn with_header(
    contents: HeaderContents,
    name: Seq<char>,
    text: Seq<char>,
) -> HeaderContents {
    contents.insert(name, seq![ascii_bytes(text)])
}

/// The first value of `name`.
pub open spec fn first_value(contents: HeaderContents, name: Seq<char>) -> Option<
    Seq<u8>,
> {
    if contents.contains_key(name) {
        Some(contents[name][0])
    } else {
        None
    }
}

/// A header value as text, where all of it shows as text.
pub open spec fn value_text(value: Seq<u8>) -> Option<Seq<char>> {
    if all_visible(value) {
        Some(ascii_text(value))
    } else {
        None
    }
}

/// The first value of `name` as text.
pub open spec fn header_text(contents: HeaderContents, name: Seq<char>) -> Option<
    Seq<char>,
> {
    match first_value(contents, name) {
        Some(value) => value_text(value),
        None => None,
    }
}

/// `HeaderMap::new`: the map holds nothing.
#[verifier::external_body]
pub(crate) fn header_map_new() -> (map: HeaderMap)
    ensures
        header_contents(map) == no_headers(),
{
    HeaderMap::new()
}

/// `HeaderMap::insert` of a value made by `HeaderValue::from_static`: the value becomes the
/// only one of its name, and all other names keep theirs. Both calls panic on malformed text,
/// and the map on growing beyond its limit, which the preconditions rule out.
#[verifier::external_body]
pub(crate) fn header_insert(map: &mut HeaderMap, name: &'static str, value: &'static str)
    requires
        is_header_name(name@),
        is_header_text(value@),
        has_room(header_contents(*old(map))),
    ensures
        header_contents(*final(map)) == with_header(header_contents(*old(map)), name@, value@),
{
    map.insert(name, HeaderValue::from_static(value));
}

/// `HeaderMap::get`: the bytes of the first value of the name, if there is one.
#[verifier::external_body]
pub(crate) fn header_get(map: &HeaderMap, name: &str) -> (value: Option<Vec<u8>>)
    requires
        is_header_name(name@),
    ensures
        value is Some <==> first_value(header_contents(*map), name@) is Some,
        value matches Some(v) ==> first_value(header_contents(*map), name@) == Some(v@),
{
    map.get(name).map(|value| value.as_bytes().to_vec())
}

/// `HeaderValue::to_str`, on a value made by `HeaderValue::from_bytes`: the text of the bytes
/// where all of them show as text. `from_bytes` refuses only bytes that do not.
#[verifier::external_body]
pub(crate) fn header_value_text(value: &[u8]) -> (text: Option<String>)
    ensures
        text is Some <==> value_text(value@) is Some,
        text matches Some(t) ==> value_text(value@) == Some(t@),
{
    let value = HeaderValue::from_bytes(value).ok()?;
    value.to_str().ok().map(|text| text.to_string())
}

/// Reads the first value of the header `name`, where there is one and it shows as text.
pub fn read_header(map: &HeaderMap, name: &str) -> (text: Option<String>)
    requires
        is_header_name(name@),
    ensures
        text is Some <==> header_text(header_contents(*map), name@) is Some,
        text matches Some(t) ==> header_text(header_contents(*map), name@) == Some(t@),
{
    match header_get(map, name) {
        Some(value) => header_value_text(value.as_slice()),
        None => None,
    }
}

} // verus!
