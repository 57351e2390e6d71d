//! The HTTP values that pass between this library and the transport: header
//! maps, header values and status codes. Their insides belong to the HTTP
//! crate; what this library relies on is stated here and taken on trust.

use reqwest::header::HeaderMap;
use reqwest::header::HeaderValue;
use reqwest::StatusCode;
use vstd::prelude::*;
use vstd::string::*;

verus! {

/// `reqwest::header::HeaderMap`: a set of HTTP headers. Its insides are not
/// looked into.
#[verifier::external_type_specification]
#[verifier::external_body]
#[verifier::reject_recursive_types(T)]
pub struct ExHeaderMap<T>(reqwest::header::HeaderMap<T>);

/// `reqwest::header::HeaderValue`: the value of one header. Its insides are
/// not looked into.
#[verifier::external_type_specification]
#[verifier::external_body]
pub struct ExHeaderValue(reqwest::header::HeaderValue);

/// `reqwest::StatusCode`: the status of a response. Its insides are not
/// looked into.
#[verifier::external_type_specification]
#[verifier::external_body]
pub struct ExStatusCode(reqwest::StatusCode);

/// `reqwest::Error`: a failure of the transport. It is carried along and
/// never looked into.
#[verifier::external_type_specification]
#[verifier::external_body]
pub struct ExTransportError(reqwest::Error);

/// The bytes that a header value holds.
pub uninterp spec fn header_value_bytes(value: HeaderValue) -> Seq<u8>;

/// What a header map holds, as far as a lookup by name can tell: for each
/// name that has an entry, in lower case, the bytes of the first value stored
/// under it.
pub uninterp spec fn header_first_values(headers: HeaderMap) -> Map<Seq<char>, Seq<u8>>;

/// The three-digit number of a status code.
pub uninterp spec fn status_code_number(status: StatusCode) -> u16;

/// Whether `name` is a header name written in lower-case letters, digits and
/// hyphens, of at most 64 characters. The header map stores such a name as it
/// is written.
pub open spec fn is_plain_header_name(name: Seq<char>) -> bool {
    &&& 0 < name.len() <= 64
    &&& forall|i: int|
        0 <= i < name.len() ==> {
            let c = #[trigger] name[i];
            ('a' <= c <= 'z') || ('0' <= c <= '9') || c == '-'
        }
}

/// Whether a header value may hold the byte `b`: anything but a control
/// character, the tab excepted.
pub open spec fn is_header_value_byte(b: u8) -> bool {
    (b >= 32 && b != 127) || b == 9
}

/// Whether `b` is a printable ASCII character, a space or a tab.
pub open spec fn is_visible_ascii(b: u8) -> bool {
    (32 <= b < 127) || b == 9
}

/// The characters that the ASCII bytes `bytes` stand for.
pub open spec fn ascii_text(bytes: Seq<u8>) -> Seq<char> {
    Seq::new(bytes.len(), |i: int| bytes[i] as char)
}

/// The bytes that stand for the ASCII characters `text`.
pub open spec fn ascii_bytes(text: Seq<char>) -> Seq<u8> {
    Seq::new(text.len(), |i: int| text[i] as u8)
}

/// The contents of a header map without entries.
pub open spec fn no_headers() -> Map<Seq<char>, Seq<u8>> {
    Map::empty()
}

/// The most names that this library lets a header map grow to.
pub const MAX_HEADER_NAMES: usize = 1024;

/// `HeaderMap::new`: a map without entries.
#[verifier::external_body]
pub(crate) fn header_map_new() -> (headers: HeaderMap)
    ensures
        header_first_values(headers) == no_headers(),
{
    HeaderMap::new()
}

/// `HeaderMap::get` with a text key: the first value stored under `name`, or
/// nothing where the map has no entry of that name.
#[verifier::external_body]
pub(crate) fn header_map_get<'a>(headers: &'a HeaderMap, name: &str) -> (value: Option<
    &'a HeaderValue,
>)
    requires
        is_plain_header_name(name@),
    ensures
        value is Some <==> header_first_values(*headers).contains_key(name@),
        value matches Some(v) ==> header_value_bytes(*v) == header_first_values(*headers)[name@],
{
    headers.get(name)
}

/// `HeaderMap::insert` with a static text key: afterwards `value` is the only
/// value under `name`, and the other names are as they were. The outside
/// function panics only where the map would outgrow its greatest size of
/// 32,768 slots; the bound asked for here keeps far below that.
#[verifier::external_body]
pub(crate) fn header_map_insert(headers: &mut HeaderMap, name: &'static str, value: HeaderValue)
    requires
        is_plain_header_name(name@),
        header_first_values(*old(headers)).dom().finite(),
        header_first_values(*old(headers)).dom().len() < MAX_HEADER_NAMES,
    ensures
        header_first_values(*final(headers)) == header_first_values(*old(headers)).insert(
            name@,
            header_value_bytes(value),
        ),
{
    headers.insert(name, value);
}

/// `HeaderValue::to_str`: the value as text, where every byte of it is
/// visible ASCII; nothing otherwise.
#[verifier::external_body]
pub(crate) fn header_value_to_str<'a>(value: &'a HeaderValue) -> (text: Option<&'a str>)
    ensures
        text is Some <==> (forall|i: int|
            0 <= i < header_value_bytes(*value).len() ==> is_visible_ascii(
                #[trigger] header_value_bytes(*value)[i],
            )),
        text matches Some(t) ==> t@ == ascii_text(header_value_bytes(*value)),
{
    value.to_str().ok()
}

/// `HeaderValue::from_str`: a value that holds the bytes of `text`, where
/// each of them may stand in a header value; nothing otherwise.
#[verifier::external_body]
pub(crate) fn header_value_from_str(text: &str) -> (value: Option<HeaderValue>)
    ensures
        value is Some <==> (forall|i: int|
            0 <= i < text.spec_bytes().len() ==> is_header_value_byte(
                #[trigger] text.spec_bytes()[i],
            )),
        value matches Some(v) ==> header_value_bytes(v) == text.spec_bytes(),
{
    HeaderValue::from_str(text).ok()
}

/// `HeaderValue::from` an unsigned 64-bit integer: the number in base ten.
#[verifier::external_body]
pub(crate) fn header_value_from_u64(number: u64) -> (value: HeaderValue)
    ensures
        header_value_bytes(value) == ascii_bytes(crate::text::decimal(number as nat)),
{
    HeaderValue::from(number)
}

/// `StatusCode::as_u16`: the number of the status code.
#[verifier::external_body]
pub(crate) fn status_number(status: &StatusCode) -> (number: u16)
    ensures
        number == status_code_number(*status),
{
    status.as_u16()
}

} // verus!
