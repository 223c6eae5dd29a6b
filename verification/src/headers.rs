//! Request headers: the two lookups the adapter makes in the transport
//! metadata of a call, stated over what a header map holds.

use vstd::prelude::*;
use vstd::string::*;

verus! {

/// The header map of the `http` crate, known by what it holds.
#[verifier::external_type_specification]
#[verifier::external_body]
#[verifier::reject_recursive_types(T)]
pub struct ExHeaderMap<T>(http::HeaderMap<T>);

/// The header value of the `http` crate, known by its bytes.
#[verifier::external_type_specification]
#[verifier::external_body]
pub struct ExHeaderValue(http::HeaderValue);

/// What a header map holds: under each header name in it, written in lower
/// case as the map keeps it, the bytes of the values under that name, the
/// one that came first at the front.
pub uninterp spec fn header_map_values(map: http::HeaderMap<http::HeaderValue>) -> Map<
    Seq<char>,
    Seq<Seq<u8>>,
>;

/// The bytes that a header value holds.
pub uninterp spec fn header_value_bytes(value: http::HeaderValue) -> Seq<u8>;

/// No character of `name` is an upper-case ASCII letter.
pub open spec fn no_upper_case(name: Seq<char>) -> bool {
    forall|i: int| 0 <= i < name.len() ==> !('A' <= #[trigger] name[i] && name[i] <= 'Z')
}

/// Every byte is a visible ASCII character, a space or a tab.
pub open spec fn visible_ascii(bytes: Seq<u8>) -> bool {
    forall|i: int|
        0 <= i < bytes.len() ==> (32 <= #[trigger] bytes[i] && bytes[i] < 127) || bytes[i] == 9
}

/// The characters that ASCII bytes stand for.
pub open spec fn ascii_text(bytes: Seq<u8>) -> Seq<char> {
    Seq::new(bytes.len(), |i: int| bytes[i] as char)
}

/// The text of the first value under `name`, where the map has one and it is
/// visible ASCII.
pub open spec fn header_text(map: http::HeaderMap<http::HeaderValue>, name: Seq<char>) -> Option<
    Seq<char>,
> {
    let values = header_map_values(map);
    if values.contains_key(name) && visible_ascii(values[name][0]) {
        Some(ascii_text(values[name][0]))
    } else {
        None
    }
}

/// `HeaderMap::get` with a string for the name. The map compares names
/// without regard to ASCII case and keeps them in lower case, so for a name
/// without upper-case letters the lookup finds exactly the entry under that
/// name, and hands out the first of its values.
#[verifier::external_body]
fn first_value<'a>(map: &'a http::HeaderMap<http::HeaderValue>, name: &str) -> (r: Option<
    &'a http::HeaderValue,
>)
    requires
        no_upper_case(name@),
    ensures
        match r {
            Some(v) => header_map_values(*map).contains_key(name@) && header_value_bytes(*v)
                == header_map_values(*map)[name@][0],
            None => !header_map_values(*map).contains_key(name@),
        },
{
    map.get(name)
}

/// `HeaderValue::to_str`: the value as text where each of its bytes is a
/// visible ASCII character, a space or a tab, and nothing otherwise.
#[verifier::external_body]
fn value_text<'a>(value: &'a http::HeaderValue) -> (r: Option<&'a str>)
    ensures
        match r {
            Some(s) => visible_ascii(header_value_bytes(*value)) && s@ == ascii_text(
                header_value_bytes(*value),
            ),
            None => !visible_ascii(header_value_bytes(*value)),
        },
{
    value.to_str().ok()
}

/// Every character may stand in a header value: none is a control character
/// but the tab.
pub open spec fn valid_header_text(text: Seq<char>) -> bool {
    forall|i: int|
        0 <= i < text.len() ==> #[trigger] text[i] == '\t' || (' ' <= text[i] && text[i] != '\x7f')
}

/// `HeaderValue::from_str`: a header value that holds the bytes of `text`,
/// unless one of them is a control character other than the tab.
#[verifier::external_body]
pub(crate) fn header_value(text: &str) -> (r: Option<http::HeaderValue>)
    ensures
        r is Some <==> valid_header_text(text@),
        r is Some ==> header_value_bytes(r->0) == text.spec_bytes(),
{
    http::HeaderValue::from_str(text).ok()
}

/// Looks `name` up in `map` and reads the first value under it as text.
pub(crate) fn header(map: &http::HeaderMap<http::HeaderValue>, name: &str) -> (r: Option<String>)
    requires
        no_upper_case(name@),
    ensures
        match r {
            Some(s) => header_text(*map, name@) == Some(s@),
            None => header_text(*map, name@) is None,
        },
{
    match first_value(map, name) {
        Some(value) => match value_text(value) {
            Some(s) => Some(s.to_owned()),
            None => None,
        },
        None => None,
    }
}

} // verus!
