//! The header map of the `http` crate as the negotiator sees it: which names
//! it holds and which values stand under each. The map itself stays the
//! outside crate's; the functions here say what each call does to it.

use crate::text::{contains_lowered, eq_ignore_ascii_case, eq_ignoring_case, is_infix, is_utf8, lowered};
use vstd::prelude::*;
use vstd::string::StringSliceAdditionalSpecFns;
use vstd::utf8::valid_utf8;

verus! {

/// `http::header::HeaderValue`, the type of what a header map stores.
/// Nothing is said of it here: values enter and leave the map as bytes.
#[verifier::external_type_specification]
#[verifier::external_body]
pub struct ExHeaderValue(http::header::HeaderValue);

/// `http::header::HeaderMap`. What one holds is named by `header_values`.
#[verifier::external_type_specification]
#[verifier::external_body]
#[verifier::reject_recursive_types(T)]
pub struct ExHeaderMap<T>(http::header::HeaderMap<T>);

/// What a header map holds: under each header name, in lower case, the
/// values stored for it, in the order in which they were added. A name
/// without a value is not in the domain.
pub uninterp spec fn header_values(map: http::header::HeaderMap<http::header::HeaderValue>) -> Map<
    Seq<char>,
    Seq<Seq<u8>>,
>;

/// A character of the header names that this crate uses.
pub open spec fn is_name_char(c: char) -> bool {
    ||| 'a' <= c <= 'z'
    ||| '0' <= c <= '9'
    ||| c == '-'
}

/// A header name in the form in which the map keeps it: lower-case letters,
/// digits and hyphens, between one and sixty-four of them.
pub open spec fn is_header_name(name: Seq<char>) -> bool {
    &&& 1 <= name.len() <= 64
    &&& forall|i: int| 0 <= i < name.len() ==> is_name_char(#[trigger] name[i])
}

/// A byte that `http` admits in a header value: the horizontal tab, and any
/// byte from the space on but for DEL.
pub open spec fn is_value_byte(b: u8) -> bool {
    b >= 32 && b != 127 || b == 9
}

/// A byte string that `http` admits as a header value.
pub open spec fn is_header_value(bytes: Seq<u8>) -> bool {
    forall|i: int| 0 <= i < bytes.len() ==> is_value_byte(#[trigger] bytes[i])
}

/// The headers of the opening handshake, as the map spells them.
pub const CONNECTION: &'static str = "connection";

pub const UPGRADE: &'static str = "upgrade";

pub const SEC_WEBSOCKET_VERSION: &'static str = "sec-websocket-version";

pub const SEC_WEBSOCKET_KEY: &'static str = "sec-websocket-key";

pub const SEC_WEBSOCKET_PROTOCOL: &'static str = "sec-websocket-protocol";

pub const SEC_WEBSOCKET_ACCEPT: &'static str = "sec-websocket-accept";

/// The six handshake headers are header names, and each has a length of
/// its own, so that no two of them are the same name.
pub proof fn lemma_handshake_names()
    ensures
        is_header_name(CONNECTION@),
        is_header_name(UPGRADE@),
        is_header_name(SEC_WEBSOCKET_VERSION@),
        is_header_name(SEC_WEBSOCKET_KEY@),
        is_header_name(SEC_WEBSOCKET_PROTOCOL@),
        is_header_name(SEC_WEBSOCKET_ACCEPT@),
        CONNECTION@.len() == 10,
        UPGRADE@.len() == 7,
        SEC_WEBSOCKET_VERSION@.len() == 21,
        SEC_WEBSOCKET_KEY@.len() == 17,
        SEC_WEBSOCKET_PROTOCOL@.len() == 22,
        SEC_WEBSOCKET_ACCEPT@.len() == 20,
{
    reveal_strlit("connection");
    reveal_strlit("upgrade");
    reveal_strlit("sec-websocket-version");
    reveal_strlit("sec-websocket-key");
    reveal_strlit("sec-websocket-protocol");
    reveal_strlit("sec-websocket-accept");
}

/// How many names a map may hold and still take a new one as far as this
/// crate claims. The map's own limit lies far above it.
pub const ROOM: usize = 32;

/// The map holds so few names that another one fits.
pub open spec fn has_room(values: Map<Seq<char>, Seq<Seq<u8>>>) -> bool {
    values.dom().finite() && values.dom().len() < ROOM
}

/// The contents of a map that holds no header.
pub open spec fn no_headers() -> Map<Seq<char>, Seq<Seq<u8>>> {
    Map::empty()
}

/// The first value stored under `name`, if the map holds the name.
pub open spec fn first_value(values: Map<Seq<char>, Seq<Seq<u8>>>, name: Seq<char>) -> Option<
    Seq<u8>,
> {
    if values.contains_key(name) {
        Some(values[name][0])
    } else {
        None
    }
}

/// `HeaderMap::get` with the name as a string slice, and `HeaderValue::as_bytes`
/// on what it finds. The contract claims that the result is the first value
/// stored under the name, and `None` where the map does not hold the name.
#[verifier::external_body]
pub(crate) fn first_header(map: &http::header::HeaderMap, name: &str) -> (value: Option<Vec<u8>>)
    requires
        is_header_name(name@),
    ensures
        match value {
            Some(bytes) => first_value(header_values(*map), name@) == Some(bytes@),
            None => first_value(header_values(*map), name@) is None,
        },
{
    map.get(name).map(|found| found.as_bytes().to_vec())
}

/// `HeaderMap::remove` with the name as a string slice, and
/// `HeaderValue::as_bytes` on what it hands back. The contract claims that
/// every value under the name leaves the map, that the other names keep
/// theirs, and that the result is the first of the values that left.
#[verifier::external_body]
pub(crate) fn take_header(map: &mut http::header::HeaderMap, name: &str) -> (value: Option<Vec<u8>>)
    requires
        is_header_name(name@),
    ensures
        match value {
            Some(bytes) => first_value(header_values(*old(map)), name@) == Some(bytes@),
            None => first_value(header_values(*old(map)), name@) is None,
        },
        header_values(*final(map)) == header_values(*old(map)).remove(name@),
{
    map.remove(name).map(|found| found.as_bytes().to_vec())
}

/// `HeaderMap::new`. The contract claims that the new map holds nothing.
#[verifier::external_body]
pub(crate) fn new_headers() -> (headers: http::header::HeaderMap)
    ensures
        header_values(headers) == no_headers(),
{
    http::header::HeaderMap::new()
}

/// `HeaderMap::insert` with the name as a static string, on a value made by
/// `HeaderValue::from_bytes`. The contract claims that afterwards the name
/// has this one value and the other names keep theirs. Left out are a name
/// or a value that `http` does not admit, and a map that holds thirty-two
/// names or more: `insert` fails only once a map has grown to thousands of
/// names, and a bound this far below serves every use here.
#[verifier::external_body]
pub(crate) fn set_header(map: &mut http::header::HeaderMap, name: &'static str, value: &[u8])
    requires
        is_header_name(name@),
        is_header_value(value@),
        has_room(header_values(*old(map))),
    ensures
        header_values(*final(map)) == header_values(*old(map)).insert(name@, seq![value@]),
{
    map.insert(name, http::header::HeaderValue::from_bytes(value).unwrap());
}

/// Whether the first value of header `key` is `value` up to ASCII case. A
/// map without the header gives `false`.
pub open spec fn header_is(values: Map<Seq<char>, Seq<Seq<u8>>>, key: Seq<char>, value: Seq<u8>) -> bool {
    match first_value(values, key) {
        Some(found) => eq_ignoring_case(found, value),
        None => false,
    }
}

/// Whether the first value of header `key` is text that, put in lower case,
/// holds `value` somewhere. A map without the header, or with bytes there
/// that are not UTF-8, gives `false`.
pub open spec fn header_holds(values: Map<Seq<char>, Seq<Seq<u8>>>, key: Seq<char>, value: Seq<u8>) -> bool {
    match first_value(values, key) {
        Some(found) => valid_utf8(found) && is_infix(value, lowered(found)),
        None => false,
    }
}

/// Tests a header against an expected value, without regard to ASCII case.
pub fn header_eq(headers: &http::header::HeaderMap, key: &str, value: &str) -> (same: bool)
    requires
        is_header_name(key@),
    ensures
        same == header_is(header_values(*headers), key@, value.spec_bytes()),
{
    match first_header(headers, key) {
        Some(found) => eq_ignore_ascii_case(found.as_slice(), value.as_bytes()),
        None => false,
    }
}

/// Tests whether a header's text holds `value`, after the text is put in
/// lower case. This is a search for a run of characters, not for a whole
/// token: `upgrade` is found in `keep-alive, Upgrade` and in `upgraded` alike.
pub fn header_contains(headers: &http::header::HeaderMap, key: &str, value: &str) -> (found: bool)
    requires
        is_header_name(key@),
    ensures
        found == header_holds(header_values(*headers), key@, value.spec_bytes()),
{
    match first_header(headers, key) {
        Some(text) => is_utf8(text.as_slice()) && contains_lowered(text.as_slice(), value.as_bytes()),
        None => false,
    }
}

} // verus!
