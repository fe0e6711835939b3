use vstd::prelude::*;
use vstd::string::StringExecFns;
use vstd::utf8::{decode_utf8, encode_utf8, valid_utf8};

use crate::error::{ErrorKind, GuestError};
use crate::text::{clone_body, utf8_to_text};
use crate::wire::{
    header_name_bytes_ok, header_name_is_valid, header_value_bytes_ok, header_value_is_valid,
    status_code_is_valid, status_ok, GuestRequest, GuestResponse, WireRequest, WireResponse,
};

verus! {

/// The separator inserted between the values of a repeated header name.
pub open spec fn merge_separator() -> Seq<char> {
    ", "@
}

/// The first position in `hs` whose name is `name`, or -1 when absent.
pub open spec fn first_index_of(hs: Seq<(Seq<char>, Seq<char>)>, name: Seq<char>) -> int
    decreases hs.len(),
{
    if hs.len() == 0 {
        -1
    } else if hs[0].0 == name {
        0
    } else {
        let rest = first_index_of(hs.drop_first(), name);
        if rest == -1 {
            -1
        } else {
            rest + 1
        }
    }
}

proof fn lemma_first_index_of_none(hs: Seq<(Seq<char>, Seq<char>)>, name: Seq<char>)
    requires
        forall|i: int| 0 <= i < hs.len() ==> (#[trigger] hs[i]).0 != name,
    ensures
        first_index_of(hs, name) == -1,
    decreases hs.len(),
{
    if hs.len() > 0 {
        assert(hs[0].0 != name);
        assert(forall|i: int|
            0 <= i < hs.drop_first().len() ==> (#[trigger] hs.drop_first()[i]).0 != name) by {
            assert(forall|i: int|
                0 <= i < hs.drop_first().len() ==> hs.drop_first()[i] == hs[i + 1]);
        }
        lemma_first_index_of_none(hs.drop_first(), name);
    }
}

proof fn lemma_first_index_of_at(hs: Seq<(Seq<char>, Seq<char>)>, name: Seq<char>, j: int)
    requires
        0 <= j < hs.len(),
        hs[j].0 == name,
        forall|i: int| 0 <= i < j ==> (#[trigger] hs[i]).0 != name,
    ensures
        first_index_of(hs, name) == j,
    decreases hs.len(),
{
    if j > 0 {
        assert(hs[0].0 != name);
        assert(hs.drop_first()[j - 1].0 == name);
        assert(forall|i: int|
            0 <= i < j - 1 ==> (#[trigger] hs.drop_first()[i]).0 != name) by {
            assert(forall|i: int|
                0 <= i < hs.drop_first().len() ==> hs.drop_first()[i] == hs[i + 1]);
        }
        lemma_first_index_of_at(hs.drop_first(), name, j - 1);
    }
}

/// Host-to-guest header conversion: values of a repeated header name are
/// appended (separated by ", ") to the name's first occurrence, in header
/// order, so first-occurrence order is preserved.
pub open spec fn merge_headers(pairs: Seq<(Seq<char>, Seq<char>)>) -> Seq<
    (Seq<char>, Seq<char>),
>
    decreases pairs.len(),
{
    if pairs.len() == 0 {
        Seq::empty()
    } else {
        let prev = merge_headers(pairs.drop_last());
        let name = pairs.last().0;
        let value = pairs.last().1;
        let at = first_index_of(prev, name);
        if at == -1 {
            prev.push((name, value))
        } else {
            prev.update(at, (prev[at].0, prev[at].1 + merge_separator() + value))
        }
    }
}

/// The decoded view of raw wire headers: names unchanged, values decoded
/// from their UTF-8 bytes.
pub open spec fn decoded_wire_headers(hs: Seq<(Seq<char>, Seq<u8>)>) -> Seq<
    (Seq<char>, Seq<char>),
> {
    hs.map_values(|p: (Seq<char>, Seq<u8>)| (p.0, decode_utf8(p.1)))
}

/// Every header value of the wire request is valid UTF-8.
pub open spec fn wire_headers_decodable(hs: Seq<(Seq<char>, Seq<u8>)>) -> bool {
    forall|i: int| 0 <= i < hs.len() ==> valid_utf8((#[trigger] hs[i]).1)
}

/// What a successful inbound marshal produces: method, target and body
/// carried over exactly; headers decoded and merged.
pub open spec fn guest_request_matches(req: WireRequest, g: GuestRequest) -> bool {
    &&& g.method@ == req.method@
    &&& g.uri@ == req.target@
    &&& g.headers.deep_view() == merge_headers(decoded_wire_headers(req.headers.deep_view()))
    &&& g.body.deep_view() == req.body.deep_view()
}

/// Finds the first entry of `merged` whose name equals `name`.
fn find_header(merged: &Vec<(String, String)>, name: &String) -> (r: Option<usize>)
    ensures
        r matches Some(j) ==> j < merged@.len() && merged@[j as int].0@ == name@ && (forall|
            i: int,
        |
            0 <= i < j ==> (#[trigger] merged@[i]).0@ != name@),
        r is None ==> forall|i: int| 0 <= i < merged@.len() ==> (#[trigger] merged@[i]).0@
            != name@,
{
    let mut j: usize = 0;
    while j < merged.len()
        invariant
            j <= merged@.len(),
            forall|i: int| 0 <= i < j ==> (#[trigger] merged@[i]).0@ != name@,
        decreases merged@.len() - j,
    {
        if merged[j].0 == *name {
            return Some(j);
        }
        j = j + 1;
    }
    None
}

/// Marshals an inbound wire request into guest-native form.
///
/// Succeeds exactly when every header value decodes as UTF-8; the guest
/// request then carries the method, target and body unchanged and the
/// headers merged by [`merge_headers`]. An undecodable value is a
/// conversion failure.
pub fn wire_to_guest(req: &WireRequest) -> (r: Result<GuestRequest, GuestError>)
    ensures
        r is Ok <==> wire_headers_decodable(req.headers.deep_view()),
        r matches Ok(g) ==> guest_request_matches(*req, g),
        r matches Err(e) ==> e.kind == ErrorKind::ConversionFailure,
{
    let ghost dv = req.headers.deep_view();
    let ghost decoded = decoded_wire_headers(dv);
    let mut merged: Vec<(String, String)> = Vec::new();
    let mut k: usize = 0;
    while k < req.headers.len()
        invariant
            k <= req.headers@.len(),
            dv == req.headers.deep_view(),
            decoded == decoded_wire_headers(dv),
            dv.len() == req.headers@.len(),
            forall|i: int| 0 <= i < k ==> valid_utf8((#[trigger] dv[i]).1),
            merged.deep_view() == merge_headers(decoded.take(k as int)),
        decreases req.headers@.len() - k,
    {
        let name = req.headers[k].0.clone();
        let value = match utf8_to_text(&req.headers[k].1) {
            Some(v) => v,
            None => {
                proof {
                    assert(dv[k as int].1 == req.headers@[k as int].1@);
                    assert(!wire_headers_decodable(dv));
                }
                return Err(
                    GuestError::conversion_failure(
                        String::from_str("header value is not valid UTF-8 text"),
                    ),
                );
            },
        };
        proof {
            assert(dv[k as int] == (req.headers@[k as int].0@, req.headers@[k as int].1@));
            assert(decoded[k as int] == (dv[k as int].0, decode_utf8(dv[k as int].1)));
            assert(name@ == decoded[k as int].0);
            assert(value@ == decoded[k as int].1);
        }
        let ghost prev = merge_headers(decoded.take(k as int));
        match find_header(&merged, &name) {
            Some(j) => {
                proof {
                    assert(merged.deep_view()[j as int]
                        == (merged@[j as int].0@, merged@[j as int].1@));
                    assert(forall|i: int|
                        0 <= i < j ==> (#[trigger] merged.deep_view()[i]).0
                            == merged@[i].0@);
                    lemma_first_index_of_at(prev, name@, j as int);
                }
                let kept = merged[j].0.clone();
                let mut joined = merged[j].1.clone();
                joined.append(", ");
                joined.append(value.as_str());
                merged[j] = (kept, joined);
                proof {
                    let stepped = prev.update(
                        j as int,
                        (prev[j as int].0, prev[j as int].1 + merge_separator() + value@),
                    );
                    assert(merged.deep_view() =~= stepped);
                    assert(decoded.take(k as int + 1).drop_last() =~= decoded.take(k as int));
                    assert(decoded.take(k as int + 1).last() == decoded[k as int]);
                    assert(merge_headers(decoded.take(k as int + 1)) == stepped);
                }
            },
            None => {
                proof {
                    assert(forall|i: int|
                        0 <= i < merged@.len() ==> (#[trigger] merged.deep_view()[i]).0
                            == merged@[i].0@);
                    lemma_first_index_of_none(prev, name@);
                }
                merged.push((name, value));
                proof {
                    let stepped = prev.push((decoded[k as int].0, decoded[k as int].1));
                    assert(merged.deep_view() =~= stepped);
                    assert(decoded.take(k as int + 1).drop_last() =~= decoded.take(k as int));
                    assert(decoded.take(k as int + 1).last() == decoded[k as int]);
                    assert(merge_headers(decoded.take(k as int + 1)) == stepped);
                }
            },
        }
        k = k + 1;
    }
    proof {
        assert(decoded.take(dv.len() as int) =~= decoded);
    }
    Ok(
        GuestRequest {
            method: req.method.clone(),
            uri: req.target.clone(),
            headers: merged,
            body: clone_body(&req.body),
        },
    )
}

/// Every header of a guest response is transmittable on the wire: the name
/// is a non-empty token of at most 65535 bytes, the value holds only
/// visible bytes, spaces and horizontal tabs.
pub open spec fn response_headers_ok(hs: Seq<(Seq<char>, Seq<char>)>) -> bool {
    forall|i: int|
        0 <= i < hs.len() ==> header_name_bytes_ok(encode_utf8((#[trigger] hs[i]).0))
            && header_value_bytes_ok(encode_utf8(hs[i].1))
}

/// A guest response is wire-ready when its status is a three-digit code
/// and every header is transmittable.
pub open spec fn response_wire_ok(resp: GuestResponse) -> bool {
    &&& status_ok(resp.status)
    &&& response_headers_ok(resp.headers.deep_view())
}

/// What a successful outbound marshal produces: all fields carried over
/// exactly.
pub open spec fn wire_response_matches(resp: GuestResponse, w: WireResponse) -> bool {
    &&& w.status == resp.status
    &&& w.headers.deep_view() == resp.headers.deep_view()
    &&& w.body.deep_view() == resp.body.deep_view()
}

/// Marshals the guest's response back to wire form.
///
/// Succeeds exactly when the status is a valid three-digit code and every
/// header name and value is transmittable; a malformed status or header is
/// a conversion failure, and nothing is changed on the way through.
pub fn guest_response_to_wire(resp: GuestResponse) -> (r: Result<WireResponse, GuestError>)
    ensures
        r is Ok <==> response_wire_ok(resp),
        r matches Ok(w) ==> wire_response_matches(resp, w),
        r matches Err(e) ==> e.kind == ErrorKind::ConversionFailure,
{
    if !status_code_is_valid(resp.status) {
        return Err(
            GuestError::conversion_failure(
                String::from_str("response status is not a valid three-digit code"),
            ),
        );
    }
    let mut i: usize = 0;
    while i < resp.headers.len()
        invariant
            i <= resp.headers@.len(),
            forall|k: int|
                0 <= k < i ==> header_name_bytes_ok(
                    encode_utf8((#[trigger] resp.headers.deep_view()[k]).0),
                ) && header_value_bytes_ok(encode_utf8(resp.headers.deep_view()[k].1)),
        decreases resp.headers@.len() - i,
    {
        proof {
            assert(resp.headers.deep_view()[i as int]
                == (resp.headers@[i as int].0@, resp.headers@[i as int].1@));
        }
        if !header_name_is_valid(resp.headers[i].0.as_str()) {
            return Err(
                GuestError::conversion_failure(
                    String::from_str("response header name is not transmittable"),
                ),
            );
        }
        if !header_value_is_valid(resp.headers[i].1.as_str()) {
            return Err(
                GuestError::conversion_failure(
                    String::from_str("response header value is not transmittable"),
                ),
            );
        }
        i = i + 1;
    }
    Ok(WireResponse { status: resp.status, headers: resp.headers, body: resp.body })
}

/// Law: for every wire request whose header values decode, marshalling to
/// guest form and projecting the fields back yields field-for-field
/// equality, except that repeated header names are merged; when all header
/// names are distinct, the headers too are carried over exactly (only
/// their values move from bytes to text).
pub proof fn lemma_request_round_trip(req: WireRequest, g: GuestRequest)
    requires
        wire_headers_decodable(req.headers.deep_view()),
        guest_request_matches(req, g),
    ensures
        g.method@ == req.method@,
        g.uri@ == req.target@,
        g.body.deep_view() == req.body.deep_view(),
        g.headers.deep_view() == merge_headers(decoded_wire_headers(req.headers.deep_view())),
        (forall|i: int, j: int|
            0 <= i < j < req.headers.deep_view().len()
                ==> (#[trigger] req.headers.deep_view()[i]).0
                != (#[trigger] req.headers.deep_view()[j]).0) ==> g.headers.deep_view()
            == decoded_wire_headers(req.headers.deep_view()),
{
    let dv = req.headers.deep_view();
    let decoded = decoded_wire_headers(dv);
    if forall|i: int, j: int|
        0 <= i < j < dv.len() ==> (#[trigger] dv[i]).0 != (#[trigger] dv[j]).0 {
        assert(forall|i: int, j: int|
            0 <= i < j < decoded.len() ==> (#[trigger] decoded[i]).0
                != (#[trigger] decoded[j]).0) by {
            assert(forall|i: int| 0 <= i < decoded.len() ==> (#[trigger] decoded[i]).0
                == dv[i].0);
        }
        lemma_merge_distinct_names(decoded);
    }
}

proof fn lemma_first_index_of_spec(hs: Seq<(Seq<char>, Seq<char>)>, name: Seq<char>)
    ensures
        first_index_of(hs, name) == -1 ==> (forall|i: int|
            0 <= i < hs.len() ==> (#[trigger] hs[i]).0 != name),
        first_index_of(hs, name) != -1 ==> 0 <= first_index_of(hs, name) < hs.len()
            && hs[first_index_of(hs, name)].0 == name,
    decreases hs.len(),
{
    if hs.len() > 0 && hs[0].0 != name {
        lemma_first_index_of_spec(hs.drop_first(), name);
        let rest = first_index_of(hs.drop_first(), name);
        if rest == -1 {
            assert forall|i: int| 0 <= i < hs.len() implies (#[trigger] hs[i]).0 != name by {
                if i > 0 {
                    assert(hs.drop_first()[i - 1] == hs[i]);
                }
            }
        } else {
            assert(hs.drop_first()[rest] == hs[rest + 1]);
        }
    }
}

/// Law: after merging, header names are pairwise distinct — each name
/// survives exactly once, at its first occurrence, with the later values
/// folded into it.
pub proof fn lemma_merge_names_distinct(pairs: Seq<(Seq<char>, Seq<char>)>)
    ensures
        forall|i: int, j: int|
            0 <= i < j < merge_headers(pairs).len() ==> (#[trigger] merge_headers(pairs)[i]).0
                != (#[trigger] merge_headers(pairs)[j]).0,
    decreases pairs.len(),
{
    if pairs.len() > 0 {
        let prev = merge_headers(pairs.drop_last());
        let merged = merge_headers(pairs);
        let name = pairs.last().0;
        let at = first_index_of(prev, name);
        lemma_merge_names_distinct(pairs.drop_last());
        lemma_first_index_of_spec(prev, name);
        if at == -1 {
            assert(merged == prev.push((name, pairs.last().1)));
            assert forall|i: int, j: int|
                0 <= i < j < merged.len() implies (#[trigger] merged[i]).0
                != (#[trigger] merged[j]).0 by {
                if j == merged.len() - 1 {
                    assert(merged[i] == prev[i]);
                    assert(merged[j].0 == name);
                } else {
                    assert(merged[i] == prev[i]);
                    assert(merged[j] == prev[j]);
                }
            }
        } else {
            assert forall|i: int, j: int|
                0 <= i < j < merged.len() implies (#[trigger] merged[i]).0
                != (#[trigger] merged[j]).0 by {
                assert(merged[i].0 == prev[i].0);
                assert(merged[j].0 == prev[j].0);
            }
        }
    }
}

/// Merging is the identity on header sequences whose names are pairwise
/// distinct.
pub proof fn lemma_merge_distinct_names(pairs: Seq<(Seq<char>, Seq<char>)>)
    requires
        forall|i: int, j: int|
            0 <= i < j < pairs.len() ==> (#[trigger] pairs[i]).0 != (#[trigger] pairs[j]).0,
    ensures
        merge_headers(pairs) == pairs,
    decreases pairs.len(),
{
    if pairs.len() > 0 {
        let prefix = pairs.drop_last();
        assert(forall|i: int, j: int|
            0 <= i < j < prefix.len() ==> (#[trigger] prefix[i]).0 != (#[trigger] prefix[j]).0)
            by {
            assert(forall|i: int| 0 <= i < prefix.len() ==> prefix[i] == pairs[i]);
        }
        lemma_merge_distinct_names(prefix);
        assert(forall|i: int| 0 <= i < prefix.len() ==> (#[trigger] prefix[i]).0
            != pairs.last().0) by {
            assert(forall|i: int| 0 <= i < prefix.len() ==> prefix[i] == pairs[i]);
        }
        lemma_first_index_of_none(prefix, pairs.last().0);
        assert(merge_headers(pairs) =~= pairs);
    }
}

} // verus!
