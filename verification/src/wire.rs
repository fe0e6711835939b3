use vstd::prelude::*;
use vstd::utf8::encode_utf8;

verus! {

/// An inbound request in the host transport's shape: header names are
/// token text, header values are raw byte buffers, the body is an optional
/// byte buffer. Immutable once constructed from the host request.
#[derive(Debug)]
pub struct WireRequest {
    pub method: String,
    pub target: String,
    pub headers: Vec<(String, Vec<u8>)>,
    pub body: Option<Vec<u8>>,
}

/// An outbound response in wire shape. A value of this type is only ever
/// produced by the response marshaller, which has checked that the status
/// is a valid three-digit code and that every header is transmittable.
#[derive(Debug)]
pub struct WireResponse {
    pub status: u16,
    pub headers: Vec<(String, String)>,
    pub body: Option<Vec<u8>>,
}

/// The guest-native mirror of an inbound request: header values decoded to
/// text, duplicate names merged. Also the argument shape of the outbound
/// HTTP client capability.
#[derive(Debug, PartialEq)]
pub struct GuestRequest {
    pub method: String,
    pub uri: String,
    pub headers: Vec<(String, String)>,
    pub body: Option<Vec<u8>>,
}

/// The guest-native response shape: produced by the guest handler, and
/// also the result shape of the outbound HTTP client capability.
#[derive(Debug, PartialEq)]
pub struct GuestResponse {
    pub status: u16,
    pub headers: Vec<(String, String)>,
    pub body: Option<Vec<u8>>,
}

impl GuestRequest {
    pub fn new(
        method: String,
        uri: String,
        headers: Vec<(String, String)>,
        body: Option<Vec<u8>>,
    ) -> (r: GuestRequest)
        ensures
            r == (GuestRequest { method, uri, headers, body }),
    {
        GuestRequest { method, uri, headers, body }
    }
}

impl GuestResponse {
    pub fn new(status: u16, headers: Vec<(String, String)>, body: Option<Vec<u8>>) -> (r:
        GuestResponse)
        ensures
            r == (GuestResponse { status, headers, body }),
    {
        GuestResponse { status, headers, body }
    }
}

/// A token character: the byte class allowed in header names and request
/// methods (letters of either case, digits, and !#$%&'*+-.^_`|~).
pub open spec fn is_tchar(b: u8) -> bool {
    ||| b == 33 || b == 35 || b == 36 || b == 37 || b == 38 || b == 39
    ||| b == 42 || b == 43 || b == 45 || b == 46
    ||| 48 <= b <= 57
    ||| 65 <= b <= 90
    ||| b == 94 || b == 95 || b == 96
    ||| 97 <= b <= 122
    ||| b == 124 || b == 126
}

/// A header name is transmittable when it is 1 to 65535 bytes long and
/// every byte is a token character.
pub open spec fn header_name_bytes_ok(bs: Seq<u8>) -> bool {
    &&& 1 <= bs.len() <= 65535
    &&& forall|i: int| 0 <= i < bs.len() ==> is_tchar(#[trigger] bs[i])
}

/// A header value byte: any visible byte, space, or horizontal tab; no
/// other control bytes.
pub open spec fn is_header_value_byte(b: u8) -> bool {
    (32 <= b && b != 127) || b == 9
}

/// A header value is transmittable when every byte is a header value byte.
pub open spec fn header_value_bytes_ok(bs: Seq<u8>) -> bool {
    forall|i: int| 0 <= i < bs.len() ==> is_header_value_byte(#[trigger] bs[i])
}

/// A request method is transmittable when it is non-empty and every byte
/// is a token character.
pub open spec fn method_bytes_ok(bs: Seq<u8>) -> bool {
    &&& 1 <= bs.len()
    &&& forall|i: int| 0 <= i < bs.len() ==> is_tchar(#[trigger] bs[i])
}

/// A valid wire status is a three-digit code.
pub open spec fn status_ok(s: u16) -> bool {
    100 <= s <= 999
}

/// Relies on `http::HeaderName::from_bytes`: it accepts exactly the byte
/// sequences of 1 to 65535 token characters (normalizing letter case,
/// which does not affect acceptance).
#[verifier::external_body]
pub(crate) fn header_name_is_valid(name: &str) -> (r: bool)
    ensures
        r == header_name_bytes_ok(encode_utf8(name@)),
{
    http::HeaderName::from_bytes(name.as_bytes()).is_ok()
}

/// Relies on `http::HeaderValue::from_bytes`: it accepts exactly the byte
/// sequences whose every byte is visible, a space, or a horizontal tab.
#[verifier::external_body]
pub(crate) fn header_value_is_valid(value: &str) -> (r: bool)
    ensures
        r == header_value_bytes_ok(encode_utf8(value@)),
{
    http::HeaderValue::from_bytes(value.as_bytes()).is_ok()
}

/// Relies on `http::Method::from_bytes`: it accepts exactly the non-empty
/// byte sequences of token characters.
#[verifier::external_body]
pub(crate) fn method_is_valid(method: &str) -> (r: bool)
    ensures
        r == method_bytes_ok(encode_utf8(method@)),
{
    http::Method::from_bytes(method.as_bytes()).is_ok()
}

/// Relies on `http::StatusCode::from_u16`: it accepts exactly the codes
/// from 100 to 999.
#[verifier::external_body]
pub(crate) fn status_code_is_valid(status: u16) -> (r: bool)
    ensures
        r == status_ok(status),
{
    http::StatusCode::from_u16(status).is_ok()
}

} // verus!
