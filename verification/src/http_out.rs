use vstd::prelude::*;
use vstd::string::StringExecFns;
use vstd::utf8::encode_utf8;

use crate::error::{ErrorKind, GuestError};
use crate::marshal::{decoded_wire_headers, wire_headers_decodable};
use vstd::utf8::valid_utf8;
use crate::text::utf8_to_text;
use crate::wire::{
    header_name_bytes_ok, header_name_is_valid, header_value_bytes_ok, header_value_is_valid,
    method_bytes_ok, method_is_valid, GuestRequest, GuestResponse,
};

verus! {

/// What `str::parse::<http::Uri>` accepts: the URI grammar is involved,
/// so the predicate is left unspecified beyond being a function of the
/// text alone.
pub uninterp spec fn uri_accepts(s: Seq<char>) -> bool;

/// Relies on `str::parse::<http::Uri>`: whether the text parses as a
/// request target; acceptance depends on the characters alone.
#[verifier::external_body]
pub(crate) fn uri_is_parsable(uri: &str) -> (r: bool)
    ensures
        r == uri_accepts(uri@),
{
    uri.parse::<http::Uri>().is_ok()
}

/// An outbound request whose parts have all been checked transmittable;
/// the runtime builds the host transport's request from it verbatim.
#[derive(Debug)]
pub struct OutboundRequest {
    pub method: String,
    pub uri: String,
    pub headers: Vec<(String, String)>,
    pub body: Option<Vec<u8>>,
}

/// A guest request is sendable when its method is a token, its target
/// parses as a URI, and each header entry — treated as exactly one header
/// occurrence, never re-split — is transmittable.
pub open spec fn outbound_request_ok(req: GuestRequest) -> bool {
    &&& method_bytes_ok(encode_utf8(req.method@))
    &&& uri_accepts(req.uri@)
    &&& forall|i: int|
        0 <= i < req.headers.deep_view().len() ==> header_name_bytes_ok(
            encode_utf8((#[trigger] req.headers.deep_view()[i]).0),
        ) && header_value_bytes_ok(encode_utf8(req.headers.deep_view()[i].1))
}

/// Validates a guest request for the outbound HTTP client and hands it
/// over unchanged; an absent body is permitted. A method, target or
/// header that the transport cannot carry is a conversion failure.
pub fn prepare_outbound_request(req: GuestRequest) -> (r: Result<OutboundRequest, GuestError>)
    ensures
        r is Ok <==> outbound_request_ok(req),
        r matches Ok(o) ==> o.method == req.method && o.uri == req.uri && o.headers
            == req.headers && o.body == req.body,
        r matches Err(e) ==> e.kind == ErrorKind::ConversionFailure,
{
    if !method_is_valid(req.method.as_str()) {
        return Err(
            GuestError::conversion_failure(
                String::from_str("request method is not a valid token"),
            ),
        );
    }
    if !uri_is_parsable(req.uri.as_str()) {
        return Err(
            GuestError::conversion_failure(String::from_str("request target is not a URI")),
        );
    }
    let mut i: usize = 0;
    while i < req.headers.len()
        invariant
            i <= req.headers@.len(),
            forall|k: int|
                0 <= k < i ==> header_name_bytes_ok(
                    encode_utf8((#[trigger] req.headers.deep_view()[k]).0),
                ) && header_value_bytes_ok(encode_utf8(req.headers.deep_view()[k].1)),
        decreases req.headers@.len() - i,
    {
        proof {
            assert(req.headers.deep_view()[i as int] == (
                req.headers@[i as int].0@,
                req.headers@[i as int].1@,
            ));
        }
        if !header_name_is_valid(req.headers[i].0.as_str()) {
            return Err(
                GuestError::conversion_failure(
                    String::from_str("request header name is not transmittable"),
                ),
            );
        }
        if !header_value_is_valid(req.headers[i].1.as_str()) {
            return Err(
                GuestError::conversion_failure(
                    String::from_str("request header value is not transmittable"),
                ),
            );
        }
        i = i + 1;
    }
    Ok(
        OutboundRequest {
            method: req.method,
            uri: req.uri,
            headers: req.headers,
            body: req.body,
        },
    )
}

/// Interprets the host transport's answer to an outbound send: each
/// response header value collapses to UTF-8 text — names unchanged,
/// entries in transport order — or the call fails with an encoding
/// (conversion) failure; status and body pass through untouched.
pub fn interpret_outbound_response(
    status: u16,
    headers: Vec<(String, Vec<u8>)>,
    body: Option<Vec<u8>>,
) -> (r: Result<GuestResponse, GuestError>)
    ensures
        r is Ok <==> wire_headers_decodable(headers.deep_view()),
        r matches Ok(g) ==> g.status == status && g.headers.deep_view()
            == decoded_wire_headers(headers.deep_view()) && g.body == body,
        r matches Err(e) ==> e.kind == ErrorKind::ConversionFailure,
{
    let ghost dv = headers.deep_view();
    let ghost decoded = decoded_wire_headers(dv);
    let mut out: Vec<(String, String)> = Vec::new();
    let mut i: usize = 0;
    while i < headers.len()
        invariant
            i <= headers@.len(),
            dv == headers.deep_view(),
            decoded == decoded_wire_headers(dv),
            dv.len() == headers@.len(),
            out@.len() == i,
            forall|k: int| 0 <= k < i ==> valid_utf8((#[trigger] dv[k]).1),
            out.deep_view() == decoded.take(i as int),
        decreases headers@.len() - i,
    {
        proof {
            assert(dv[i as int] == (headers@[i as int].0@, headers@[i as int].1@));
            assert(decoded[i as int] == (dv[i as int].0, vstd::utf8::decode_utf8(
                dv[i as int].1,
            )));
        }
        let value = match utf8_to_text(&headers[i].1) {
            Some(v) => v,
            None => {
                proof {
                    assert(!wire_headers_decodable(dv));
                }
                return Err(
                    GuestError::conversion_failure(
                        String::from_str("response header value is not valid UTF-8 text"),
                    ),
                );
            },
        };
        let name = headers[i].0.clone();
        out.push((name, value));
        proof {
            assert(out.deep_view() =~= decoded.take(i as int + 1));
        }
        i = i + 1;
    }
    proof {
        assert(decoded.take(dv.len() as int) =~= decoded);
        assert(wire_headers_decodable(dv));
    }
    Ok(GuestResponse { status, headers: out, body })
}

} // verus!
