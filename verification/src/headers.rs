//! Header fields, kept in an [`http::HeaderMap`].
//!
//! A header map is modelled as a map from lower-case field names to the values of the field, in
//! the order in which they were added. A value is a string of bytes.
use http::{HeaderMap, HeaderValue};
use vstd::prelude::*;
use vstd::string::*;
use vstd::utf8;

verus! {

/// The fields of a header map: for each name that is present, its values.
pub type Fields = Map<Seq<char>, Seq<Seq<u8>>>;

pub const CONTENT_TYPE: &'static str = "content-type";

pub const HOST: &'static str = "host";

pub const PROXY_AUTHENTICATE: &'static str = "proxy-authenticate";

pub const PROXY_AUTHORIZATION: &'static str = "proxy-authorization";

pub const PROXY_CONNECTION: &'static str = "proxy-connection";

pub const VIA: &'static str = "via";

/// How many field names a header map may hold for room to be left for one more, however it came
/// to hold them.
pub const MAX_NAMES: usize = 6553;

#[verifier::external_type_specification]
#[verifier::external_body]
pub struct ExHeaderValue(http::HeaderValue);

#[verifier::external_type_specification]
#[verifier::external_body]
#[verifier::reject_recursive_types(T)]
pub struct ExHeaderMap<T>(http::HeaderMap<T>);

/// The bytes of a header value.
pub uninterp spec fn value_bytes(value: http::HeaderValue) -> Seq<u8>;

/// The fields that a header map holds.
pub uninterp spec fn fields(map: http::HeaderMap<http::HeaderValue>) -> Map<Seq<char>, Seq<Seq<u8>>>;

/// No field at all.
pub open spec fn no_fields() -> Fields {
    Map::empty()
}

/// The values of one field; none where the field is absent.
pub open spec fn values_of(f: Fields, name: Seq<char>) -> Seq<Seq<u8>> {
    if f.dom().contains(name) {
        f[name]
    } else {
        Seq::empty()
    }
}

/// Whether another field can be added.
pub open spec fn has_room_for_field(f: Fields) -> bool {
    f.dom().len() <= MAX_NAMES
}

/// Whether `name` is the lower-case name of a field, made of letters and hyphens.
pub open spec fn is_field_name(name: Seq<char>) -> bool {
    &&& 0 < name.len() <= 64
    &&& forall|i: int| 0 <= i < name.len() ==> 'a' <= #[trigger] name[i] <= 'z' || name[i] == '-'
}

/// A byte that a header value may hold: anything but a control character, and the tab.
pub open spec fn is_value_byte(b: u8) -> bool {
    b >= 32 && b != 127 || b == 9
}

/// A byte that a header value may hold where it is read as text.
pub open spec fn is_text_byte(b: u8) -> bool {
    32 <= b < 127 || b == 9
}

pub open spec fn is_value(bytes: Seq<u8>) -> bool {
    forall|i: int| 0 <= i < bytes.len() ==> is_value_byte(#[trigger] bytes[i])
}

pub open spec fn is_text(bytes: Seq<u8>) -> bool {
    forall|i: int| 0 <= i < bytes.len() ==> is_text_byte(#[trigger] bytes[i])
}

/// Each byte read as the ASCII character that it stands for.
pub open spec fn ascii_text(bytes: Seq<u8>) -> Seq<char> {
    Seq::new(bytes.len(), |i: int| bytes[i] as char)
}

/// A header value read as text, where it is one.
pub open spec fn value_text(bytes: Seq<u8>) -> Option<Seq<char>> {
    if is_text(bytes) {
        Some(ascii_text(bytes))
    } else {
        None
    }
}

/// Calls `HeaderMap::new`.
///
/// Trusted: the new map holds no field.
#[verifier::external_body]
pub(crate) fn new_map() -> (r: HeaderMap<HeaderValue>)
    ensures
        fields(r) == no_fields(),
{
    HeaderMap::new()
}

/// Calls `HeaderMap::keys_len`.
///
/// Trusted: the result is the number of names that are present.
#[verifier::external_body]
fn names_len(map: &HeaderMap<HeaderValue>) -> (r: usize)
    ensures
        r == fields(*map).dom().len(),
{
    map.keys_len()
}

/// Calls `HeaderMap::get`.
///
/// Trusted: the result is the first value of the field, and there is none only where the field is
/// absent.
#[verifier::external_body]
pub(crate) fn first_value<'a>(map: &'a HeaderMap<HeaderValue>, name: &str) -> (r: Option<
    &'a HeaderValue,
>)
    requires
        is_field_name(name@),
    ensures
        r matches Some(v) ==> values_of(fields(*map), name@).len() > 0 && value_bytes(*v)
            == values_of(fields(*map), name@)[0],
        r is None ==> values_of(fields(*map), name@).len() == 0,
{
    map.get(name)
}

/// Calls `HeaderMap::get_all` and collects what it hands out.
///
/// Trusted: these are all values of the field, in the order in which they were added.
#[verifier::external_body]
pub(crate) fn all_values<'a>(map: &'a HeaderMap<HeaderValue>, name: &str) -> (r: Vec<
    &'a HeaderValue,
>)
    requires
        is_field_name(name@),
    ensures
        r@.len() == values_of(fields(*map), name@).len(),
        forall|i: int| #![auto]
            0 <= i < r@.len() ==> value_bytes(*r@[i]) == values_of(fields(*map), name@)[i],
{
    map.get_all(name).iter().collect()
}

/// Calls `HeaderMap::remove`.
///
/// Trusted: the field is gone with all its values, and every other field stays as it is.
#[verifier::external_body]
pub(crate) fn remove_field(map: &mut HeaderMap<HeaderValue>, name: &str)
    requires
        is_field_name(name@),
    ensures
        fields(*final(map)) == fields(*old(map)).remove(name@),
{
    map.remove(name);
}

/// Calls `HeaderMap::insert`.
///
/// Trusted: the field then has this one value, and every other field stays as it is. The call
/// panics on a map that cannot grow any further; one with no more than [`MAX_NAMES`] names can,
/// or has a place free.
#[verifier::external_body]
pub(crate) fn set_field(map: &mut HeaderMap<HeaderValue>, name: &'static str, value: HeaderValue)
    requires
        is_field_name(name@),
        has_room_for_field(fields(*old(map))),
    ensures
        fields(*final(map)) == fields(*old(map)).insert(name@, seq![value_bytes(value)]),
{
    map.insert(name, value);
}

/// Calls `HeaderMap::append`.
///
/// Trusted: the value becomes the last one of the field, and every other field stays as it is.
/// The call panics where `HeaderMap::insert` does.
#[verifier::external_body]
pub(crate) fn add_field(map: &mut HeaderMap<HeaderValue>, name: &'static str, value: HeaderValue)
    requires
        is_field_name(name@),
        has_room_for_field(fields(*old(map))),
    ensures
        fields(*final(map)) == fields(*old(map)).insert(
            name@,
            values_of(fields(*old(map)), name@).push(value_bytes(value)),
        ),
{
    map.append(name, value);
}

/// Calls `HeaderValue::from_str`.
///
/// Trusted: a text is accepted exactly where no byte of it is a control character other than the
/// tab, and the value then holds the bytes of the text.
#[verifier::external_body]
fn value_from_str(text: &str) -> (r: Option<HeaderValue>)
    ensures
        r is Some == is_value(text.spec_bytes()),
        r matches Some(v) ==> value_bytes(v) == text.spec_bytes(),
{
    HeaderValue::from_str(text).ok()
}

/// Calls `HeaderValue::to_str`.
///
/// Trusted: a value is text exactly where every byte is a printable ASCII character or a tab, and
/// the text then holds those characters.
#[verifier::external_body]
pub(crate) fn value_to_str<'a>(value: &'a HeaderValue) -> (r: Option<&'a str>)
    ensures
        r is Some == is_text(value_bytes(*value)),
        r matches Some(t) ==> t@ == ascii_text(value_bytes(*value)),
{
    value.to_str().ok()
}

/// Whether another field can be added to `map`.
pub fn has_room(map: &HeaderMap<HeaderValue>) -> (r: bool)
    ensures
        r == has_room_for_field(fields(*map)),
{
    names_len(map) <= MAX_NAMES
}

/// Whether every character is a printable ASCII character.
pub open spec fn is_printable(s: Seq<char>) -> bool {
    forall|i: int| 0 <= i < s.len() ==> ' ' <= #[trigger] s[i] <= '~'
}

/// A printable text is a header value, and is read back from it.
pub proof fn law_printable_text_is_a_value(s: Seq<char>)
    requires
        is_printable(s),
    ensures
        is_value(utf8::encode_utf8(s)),
        value_text(utf8::encode_utf8(s)) == Some(s),
{
    assert(utf8::is_ascii_chars(s));
    utf8::is_ascii_chars_encode_utf8(s);
    let bytes = utf8::encode_utf8(s);
    assert forall|i: int| 0 <= i < bytes.len() implies is_text_byte(#[trigger] bytes[i])
        && is_value_byte(bytes[i]) && bytes[i] as char == s[i] by {
        assert(s[i] as u8 == bytes[i]);
    }
    assert(ascii_text(bytes) =~= s);
}

/// The header value that holds a printable text.
pub(crate) fn text_value(text: &str) -> (r: HeaderValue)
    requires
        is_printable(text@),
    ensures
        value_bytes(r) == text.spec_bytes(),
        value_text(value_bytes(r)) == Some(text@),
{
    proof {
        law_printable_text_is_a_value(text@);
    }
    value_from_str(text).unwrap()
}

/// A field that is present has its values, all of them and in order, and an absent one has none.
pub proof fn law_values_of_a_field(f: Fields, name: Seq<char>, values: Seq<Seq<u8>>)
    ensures
        values_of(f.insert(name, values), name) == values,
        values_of(f.remove(name), name).len() == 0,
        f.dom().contains(name) ==> values_of(f, name) == f[name],
{
}

/// A value is text exactly where each of its bytes is a printable ASCII character or a tab, and its
/// text then has one character for each byte, with the same number.
pub proof fn law_text_of_a_value(bytes: Seq<u8>)
    ensures
        value_text(bytes) is Some <==> forall|i: int|
            0 <= i < bytes.len() ==> 32 <= #[trigger] bytes[i] <= 126 || bytes[i] == 9,
        value_text(bytes) matches Some(t) ==> t.len() == bytes.len() && forall|i: int|
            0 <= i < t.len() ==> #[trigger] t[i] as int == bytes[i] as int,
{
    if forall|i: int| 0 <= i < bytes.len() ==> 32 <= #[trigger] bytes[i] <= 126 || bytes[i] == 9 {
        assert(is_text(bytes));
    } else {
        let i = choose|i: int|
            0 <= i < bytes.len() && !(32 <= #[trigger] bytes[i] <= 126 || bytes[i] == 9);
        assert(!is_text_byte(bytes[i]));
    }
}

/// There is room for a field in every map with no more than 6553 names, whatever the values.
pub proof fn law_room_for_a_field(f: Fields)
    ensures
        has_room_for_field(f) <==> f.dom().len() <= 6553,
{
}

}
