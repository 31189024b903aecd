//! The header map, the status codes and the URLs of the `http` and `url`
//! crates, as the response type sees them.
//!
//! The types are opaque. What they hold is named by spec functions without a
//! body, and each function marked `external_body` states over those names
//! what the crate's source shows of one call: these statements are taken on
//! trust, and all that is proved of a response rests on them.

use axum::http::header::{
    HeaderMap, HeaderName, HeaderValue, InvalidHeaderName, InvalidHeaderValue, MaxSizeReached,
};
use axum::http::status::InvalidStatusCode;
use axum::http::StatusCode;
use oxide_auth::frontends::dev::Url;
use vstd::utf8::encode_utf8;
use vstd::prelude::*;
use vstd::string::StringSliceAdditionalSpecFns;

verus! {

#[verifier::external_type_specification]
#[verifier::external_body]
#[verifier::reject_recursive_types(T)]
pub struct ExHeaderMap<T>(HeaderMap<T>);

#[verifier::external_type_specification]
#[verifier::external_body]
pub struct ExHeaderName(HeaderName);

#[verifier::external_type_specification]
#[verifier::external_body]
pub struct ExHeaderValue(HeaderValue);

#[verifier::external_type_specification]
#[verifier::external_body]
pub struct ExInvalidHeaderName(InvalidHeaderName);

#[verifier::external_type_specification]
#[verifier::external_body]
pub struct ExInvalidHeaderValue(InvalidHeaderValue);

#[verifier::external_type_specification]
#[verifier::external_body]
pub struct ExMaxSizeReached(MaxSizeReached);

#[verifier::external_type_specification]
#[verifier::external_body]
pub struct ExInvalidStatusCode(InvalidStatusCode);

#[verifier::external_type_specification]
#[verifier::external_body]
pub struct ExUrl(Url);

/// The values a header map holds under each name, in the order in which they
/// were added. A name is in the domain exactly if the map has an entry for it.
pub type Entries = Map<Seq<char>, Seq<Seq<u8>>>;

/// What a header map holds.
pub uninterp spec fn header_map_entries(map: HeaderMap<HeaderValue>) -> Map<Seq<char>, Seq<Seq<u8>>>;

/// Whether `HeaderMap::try_append` succeeds on the map with a value under
/// the name. The map's count of entries, the size of its table and its
/// collision state decide, together with whether the name is there already;
/// no hash value and nothing outside the map does.
pub uninterp spec fn header_map_takes(map: HeaderMap<HeaderValue>, name: Seq<char>) -> bool;

/// The lower-case text of a header name, as `HeaderName::as_str` gives it.
pub uninterp spec fn header_name_text(name: HeaderName) -> Seq<char>;

/// The bytes of a header value, as `HeaderValue::as_bytes` gives them.
pub uninterp spec fn header_value_bytes(value: HeaderValue) -> Seq<u8>;

/// The header name that `HeaderName::from_bytes` reads from the UTF-8 bytes
/// of `key`, or `None` where it refuses them.
pub uninterp spec fn canonical_header_name(key: Seq<char>) -> Option<Seq<char>>;

/// The text that a URL holds: its serialization, as `Url::as_str` gives it.
pub uninterp spec fn url_text(url: Url) -> Seq<char>;

/// The bytes that stand for a text on the wire: its UTF-8 encoding.
pub open spec fn text_bytes(text: Seq<char>) -> Seq<u8> {
    encode_utf8(text)
}

/// The entries of a map that holds nothing.
pub open spec fn no_entries() -> Entries {
    Map::empty()
}

/// The entries after `value` was added under `name`: behind the values that
/// `name` already has, or as its first one.
pub open spec fn with_appended(entries: Entries, name: Seq<char>, value: Seq<u8>) -> Entries {
    if entries.dom().contains(name) {
        entries.insert(name, entries[name].push(value))
    } else {
        entries.insert(name, seq![value])
    }
}

/// Headers may repeat: a value that is added comes last under its name, the
/// values that the name had stay before it in their order, and no other name
/// is touched.
pub proof fn lemma_appended_after_earlier_values(entries: Entries, name: Seq<char>, value: Seq<u8>)
    ensures
        with_appended(entries, name, value).dom() == entries.dom().insert(name),
        with_appended(entries, name, value)[name].last() == value,
        with_appended(entries, name, value)[name].drop_last() == if entries.dom().contains(name) {
            entries[name]
        } else {
            Seq::<Seq<u8>>::empty()
        },
        forall|other: Seq<char>|
            other != name && entries.dom().contains(other) ==> #[trigger] with_appended(
                entries,
                name,
                value,
            )[other] == entries[other],
{
    let after = with_appended(entries, name, value);
    if entries.dom().contains(name) {
        assert(after[name].drop_last() =~= entries[name]);
    } else {
        assert(after[name].drop_last() =~= Seq::<Seq<u8>>::empty());
    }
    assert(after.dom() =~= entries.dom().insert(name));
}

/// A byte that may stand in a header value: anything from the space upwards
/// but DEL, and the horizontal tab.
pub open spec fn is_value_byte(b: u8) -> bool {
    (b >= 32 && b != 127) || b == 9
}

/// Whether every byte may stand in a header value.
pub open spec fn is_header_value(bytes: Seq<u8>) -> bool {
    forall|i: int| 0 <= i < bytes.len() ==> is_value_byte(#[trigger] bytes[i])
}

/// A visible ASCII byte: from the space up to the tilde, or the horizontal tab.
pub open spec fn is_visible_byte(b: u8) -> bool {
    (b >= 32 && b < 127) || b == 9
}

/// Whether every byte is visible ASCII.
pub open spec fn is_visible_text(bytes: Seq<u8>) -> bool {
    forall|i: int| 0 <= i < bytes.len() ==> is_visible_byte(#[trigger] bytes[i])
}

/// Whether a number is an HTTP status code: three decimal digits.
pub open spec fn is_status_code(code: u16) -> bool {
    100 <= code < 1000
}

/// `HeaderMap::new`: a map without entries.
#[verifier::external_body]
pub(crate) fn empty_header_map() -> (r: HeaderMap<HeaderValue>)
    ensures
        header_map_entries(r) == no_entries(),
{
    HeaderMap::new()
}

/// `HeaderMap::try_append`: it succeeds exactly where the map takes a value
/// under the name. On success the value stands last among those of its name
/// and the result tells whether the name was there before; on failure the
/// entries are as they were.
#[verifier::external_body]
pub(crate) fn try_append(
    map: &mut HeaderMap<HeaderValue>,
    name: HeaderName,
    value: HeaderValue,
) -> (r: Result<bool, MaxSizeReached>)
    ensures
        r is Ok <==> header_map_takes(*old(map), header_name_text(name)),
        match r {
            Ok(present) => {
                &&& present == header_map_entries(*old(map)).dom().contains(
                    header_name_text(name),
                )
                &&& header_map_entries(*final(map)) == with_appended(
                    header_map_entries(*old(map)),
                    header_name_text(name),
                    header_value_bytes(value),
                )
            },
            Err(_) => header_map_entries(*final(map)) == header_map_entries(*old(map)),
        },
{
    map.try_append(name, value)
}

/// `HeaderName::from_bytes` on the bytes of `key`: the name it reads, or its
/// refusal.
#[verifier::external_body]
pub(crate) fn parse_header_name(key: &str) -> (r: Result<HeaderName, InvalidHeaderName>)
    ensures
        match r {
            Ok(name) => canonical_header_name(key@) == Some(header_name_text(name)),
            Err(_) => canonical_header_name(key@) is None,
        },
{
    HeaderName::from_bytes(key.as_bytes())
}

/// `HeaderValue::from_str`: a value of the same bytes, if each of them may
/// stand in a header value.
#[verifier::external_body]
pub(crate) fn parse_header_value(value: &str) -> (r: Result<HeaderValue, InvalidHeaderValue>)
    ensures
        r is Ok <==> is_header_value(value.spec_bytes()),
        r matches Ok(v) ==> header_value_bytes(v) == value.spec_bytes(),
{
    HeaderValue::from_str(value)
}

/// `HeaderValue::from_static`: a value of the same bytes. It panics on text
/// that is not visible ASCII, which the precondition leaves out.
#[verifier::external_body]
pub(crate) fn static_header_value(text: &'static str) -> (r: HeaderValue)
    requires
        is_visible_text(text.spec_bytes()),
    ensures
        header_value_bytes(r) == text.spec_bytes(),
{
    HeaderValue::from_static(text)
}

/// The constant `header::CONTENT_TYPE`.
#[verifier::external_body]
pub(crate) fn content_type_name() -> (r: HeaderName)
    ensures
        header_name_text(r) == "content-type"@,
{
    axum::http::header::CONTENT_TYPE
}

/// The constant `header::LOCATION`.
#[verifier::external_body]
pub(crate) fn location_name() -> (r: HeaderName)
    ensures
        header_name_text(r) == "location"@,
{
    axum::http::header::LOCATION
}

/// The constant `header::WWW_AUTHENTICATE`.
#[verifier::external_body]
pub(crate) fn www_authenticate_name() -> (r: HeaderName)
    ensures
        header_name_text(r) == "www-authenticate"@,
{
    axum::http::header::WWW_AUTHENTICATE
}

/// `Url::as_str`: the text that the URL holds.
#[verifier::external_body]
pub(crate) fn url_as_str(url: &Url) -> (r: &str)
    ensures
        r@ == url_text(*url),
{
    url.as_str()
}

/// `StatusCode::from_u16`, with the code read back by `StatusCode::as_u16`:
/// the number itself if it has three decimal digits, else the refusal.
#[verifier::external_body]
pub(crate) fn checked_status(code: u16) -> (r: Result<u16, InvalidStatusCode>)
    ensures
        r is Ok <==> is_status_code(code),
        r matches Ok(v) ==> v == code,
{
    match StatusCode::from_u16(code) {
        Ok(status) => Ok(status.as_u16()),
        Err(refusal) => Err(refusal),
    }
}

} // verus!
