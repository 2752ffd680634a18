//! The header fields that every request carries.

use vstd::prelude::*;
use vstd::string::*;
use vstd::utf8::*;

use reqwest::header::{HeaderMap, HeaderValue};

use crate::text::lemma_encode_concat;

verus! {

/// `http::HeaderMap`, the collection of header fields that a request takes.
#[verifier::external_type_specification]
#[verifier::external_body]
#[verifier::reject_recursive_types(T)]
pub struct ExHeaderMap<T>(HeaderMap<T>);

/// `http::HeaderValue`, the value of one header field.
#[verifier::external_type_specification]
#[verifier::external_body]
pub struct ExHeaderValue(HeaderValue);

/// What a `HeaderMap` holds: for each field name, in lower case, the bytes of
/// the values stored under it, in their order.
pub uninterp spec fn header_fields(headers: HeaderMap<HeaderValue>) -> Map<Seq<char>, Seq<Seq<u8>>>;

/// The number of field names below which this crate adds a field to a map.
/// `HeaderMap::insert` panics when its table would have to grow beyond 32768
/// slots; the table is not grown that far while it holds fewer than 6554
/// names.
pub const FIELD_LIMIT: usize = 4096;

/// A field name that `HeaderMap::insert` takes as it stands: lower-case
/// letters and hyphens, between 1 and 64 of them.
pub open spec fn is_field_name(name: Seq<char>) -> bool {
    &&& 0 < name.len() <= 64
    &&& forall|i: int| 0 <= i < name.len() ==> 'a' <= #[trigger] name[i] <= 'z' || name[i] == '-'
}

/// A byte that may stand in a header value: a tab, or anything from the space
/// upwards but DEL.
pub open spec fn is_field_byte(b: u8) -> bool {
    b == 9 || (b >= 32 && b != 127)
}

/// Bytes that form a header value.
pub open spec fn is_field_text(bytes: Seq<u8>) -> bool {
    forall|i: int| 0 <= i < bytes.len() ==> is_field_byte(#[trigger] bytes[i])
}

/// No fields at all.
pub open spec fn no_fields() -> Map<Seq<char>, Seq<Seq<u8>>> {
    Map::empty()
}

/// `HeaderMap::new`: a map without fields.
#[verifier::external_body]
fn new_header_map() -> (headers: HeaderMap)
    ensures
        header_fields(headers) == no_fields(),
{
    HeaderMap::new()
}

/// `HeaderMap::insert` of the value that `HeaderValue::from_str` makes of
/// `value`: afterwards the field `name` holds that one value, the bytes of
/// `value`, in place of whatever it held, and the other fields are as before.
/// `from_str` refuses a byte that is no field byte, and `insert` panics on a
/// name that is none and on a table that is full: `requires` leaves these out.
#[verifier::external_body]
fn insert_field(headers: &mut HeaderMap, name: &'static str, value: &str)
    requires
        is_field_name(name@),
        is_field_text(encode_utf8(value@)),
        header_fields(*old(headers)).dom().finite(),
        header_fields(*old(headers)).dom().len() < FIELD_LIMIT,
    ensures
        header_fields(*final(headers)) == header_fields(*old(headers)).insert(
            name@,
            seq![encode_utf8(value@)],
        ),
{
    headers.insert(name, HeaderValue::from_str(value).unwrap());
}

/// The name of the field that identifies the client.
pub open spec fn user_agent_name() -> Seq<char> {
    "user-agent"@
}

/// The name of the field that carries the credential.
pub open spec fn authorization_name() -> Seq<char> {
    "authorization"@
}

/// The bytes by which the client identifies itself.
pub open spec fn user_agent_value() -> Seq<u8> {
    encode_utf8("gstm"@)
}

/// The bytes of the credential field for a token: the prefix `token `, then
/// the bytes of the token.
pub open spec fn authorization_value(token: Seq<char>) -> Seq<u8> {
    encode_utf8("token "@) + encode_utf8(token)
}

/// Whether a token can stand in a header value.
pub open spec fn is_token(token: Seq<char>) -> bool {
    is_field_text(encode_utf8(token))
}

/// The fields of a request: the client's name always, the credential where
/// there is a token.
pub open spec fn request_fields(token: Option<Seq<char>>) -> Map<Seq<char>, Seq<Seq<u8>>> {
    let always = no_fields().insert(user_agent_name(), seq![user_agent_value()]);
    match token {
        Some(t) => always.insert(authorization_name(), seq![authorization_value(t)]),
        None => always,
    }
}

/// The characters of a text, where an `Option` of one is at hand.
pub open spec fn text_of(s: Option<String>) -> Option<Seq<char>> {
    match s {
        Some(t) => Some(t@),
        None => None,
    }
}

/// Tells whether a token can stand in a header value, so that
/// `build_headers` may be called with it.
pub fn token_is_valid(token: &str) -> (ok: bool)
    ensures
        ok == is_token(token@),
{
    let bytes = token.as_bytes();
    let mut i: usize = 0;
    while i < bytes.len()
        invariant
            i <= bytes.len(),
            bytes@ == encode_utf8(token@),
            forall|j: int| 0 <= j < i ==> is_field_byte(#[trigger] bytes@[j]),
        decreases bytes.len() - i,
    {
        let b = bytes[i];
        if !(b == 9 || (b >= 32 && b != 127)) {
            return false;
        }
        i += 1;
    }
    true
}

/// Builds the header fields of a request. The field that identifies the
/// client is always there. The credential field is there if and only if a
/// token is given, and its value is `token ` followed by the token, byte for
/// byte.
pub fn build_headers(token: Option<String>) -> (headers: HeaderMap)
    requires
        token matches Some(t) ==> is_token(t@),
    ensures
        header_fields(headers) == request_fields(text_of(token)),
        header_fields(headers).contains_key(user_agent_name()),
        header_fields(headers)[user_agent_name()] == seq![user_agent_value()],
        header_fields(headers).contains_key(authorization_name()) <==> token is Some,
        token matches Some(t) ==> header_fields(headers)[authorization_name()] == seq![
            authorization_value(t@),
        ],
{
    let mut headers = new_header_map();
    proof {
        reveal_strlit("user-agent");
        reveal_strlit("authorization");
        reveal_strlit("gstm");
        reveal_strlit("token ");
        assert("user-agent"@[0] != "authorization"@[0]);
        lemma_literal_bytes("gstm"@);
        lemma_literal_bytes("token "@);
    }
    insert_field(&mut headers, "user-agent", "gstm");
    if let Some(t) = token {
        let mut value = String::from_str("token ");
        value.append(t.as_str());
        proof {
            lemma_encode_concat("token "@, t@);
        }
        insert_field(&mut headers, "authorization", value.as_str());
    }
    headers
}

/// The bytes of a text of printable ASCII characters are field bytes.
proof fn lemma_literal_bytes(s: Seq<char>)
    requires
        forall|i: int| 0 <= i < s.len() ==> ' ' <= #[trigger] s[i] <= '~',
    ensures
        is_field_text(encode_utf8(s)),
{
    assert(is_ascii_chars(s));
    is_ascii_chars_encode_utf8(s);
    assert forall|i: int| 0 <= i < encode_utf8(s).len() implies is_field_byte(
        #[trigger] encode_utf8(s)[i],
    ) by {
        assert(s[i] as u8 == encode_utf8(s)[i]);
    }
}

} // verus!
