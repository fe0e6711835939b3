use spin_python_engine::error::ErrorKind;
use spin_python_engine::marshal::{guest_response_to_wire, wire_to_guest};
use spin_python_engine::wire::{GuestResponse, WireRequest};

fn wire_request(headers: Vec<(&str, &[u8])>, body: Option<Vec<u8>>) -> WireRequest {
    WireRequest {
        method: "GET".to_string(),
        target: "/hello".to_string(),
        headers: headers
            .into_iter()
            .map(|(n, v)| (n.to_string(), v.to_vec()))
            .collect(),
        body,
    }
}

#[test]
fn round_trip_preserves_fields_and_merges_duplicates() {
    let req = wire_request(
        vec![("a", b"1" as &[u8]), ("a", b"2"), ("b", b"3")],
        Some(b"payload".to_vec()),
    );
    let g = wire_to_guest(&req).unwrap();
    assert_eq!(g.method, "GET");
    assert_eq!(g.uri, "/hello");
    assert_eq!(g.body, Some(b"payload".to_vec()));
    assert_eq!(
        g.headers,
        vec![
            ("a".to_string(), "1, 2".to_string()),
            ("b".to_string(), "3".to_string())
        ]
    );
}

#[test]
fn distinct_header_names_carry_over_unchanged() {
    let req = wire_request(vec![("x", b"1" as &[u8]), ("y", b"2"), ("z", b"3")], None);
    let g = wire_to_guest(&req).unwrap();
    assert_eq!(
        g.headers,
        vec![
            ("x".to_string(), "1".to_string()),
            ("y".to_string(), "2".to_string()),
            ("z".to_string(), "3".to_string())
        ]
    );
    assert_eq!(g.body, None);
}

#[test]
fn triple_repeat_merges_in_header_order() {
    let req = wire_request(vec![("h", b"a" as &[u8]), ("h", b"b"), ("h", b"c")], None);
    let g = wire_to_guest(&req).unwrap();
    assert_eq!(g.headers, vec![("h".to_string(), "a, b, c".to_string())]);
}

#[test]
fn non_ascii_utf8_header_value_decodes() {
    let req = wire_request(vec![("n", "gr\u{00fc}n".as_bytes())], None);
    let g = wire_to_guest(&req).unwrap();
    assert_eq!(g.headers, vec![("n".to_string(), "gr\u{00fc}n".to_string())]);
}

#[test]
fn invalid_utf8_header_value_is_conversion_failure() {
    let req = wire_request(vec![("n", &[0xff, 0xfe][..])], None);
    let e = wire_to_guest(&req).unwrap_err();
    assert_eq!(e.kind, ErrorKind::ConversionFailure);
}

#[test]
fn valid_response_passes_through_unchanged() {
    let resp = GuestResponse::new(
        200,
        vec![("content-type".to_string(), "text/plain".to_string())],
        Some(b"hi".to_vec()),
    );
    let w = guest_response_to_wire(resp).unwrap();
    assert_eq!(w.status, 200);
    assert_eq!(
        w.headers,
        vec![("content-type".to_string(), "text/plain".to_string())]
    );
    assert_eq!(w.body, Some(b"hi".to_vec()));
}

#[test]
fn status_below_100_is_conversion_failure() {
    let resp = GuestResponse::new(99, vec![], None);
    let e = guest_response_to_wire(resp).unwrap_err();
    assert_eq!(e.kind, ErrorKind::ConversionFailure);
}

#[test]
fn status_1000_is_conversion_failure() {
    let resp = GuestResponse::new(1000, vec![], None);
    let e = guest_response_to_wire(resp).unwrap_err();
    assert_eq!(e.kind, ErrorKind::ConversionFailure);
}

#[test]
fn boundary_statuses_are_accepted() {
    for status in [100u16, 999u16] {
        let resp = GuestResponse::new(status, vec![], None);
        assert_eq!(guest_response_to_wire(resp).unwrap().status, status);
    }
}

#[test]
fn header_name_with_space_is_conversion_failure() {
    let resp = GuestResponse::new(200, vec![("bad name".to_string(), "v".to_string())], None);
    let e = guest_response_to_wire(resp).unwrap_err();
    assert_eq!(e.kind, ErrorKind::ConversionFailure);
}

#[test]
fn empty_header_name_is_conversion_failure() {
    let resp = GuestResponse::new(200, vec![(String::new(), "v".to_string())], None);
    let e = guest_response_to_wire(resp).unwrap_err();
    assert_eq!(e.kind, ErrorKind::ConversionFailure);
}

#[test]
fn uppercase_header_name_is_accepted() {
    let resp = GuestResponse::new(204, vec![("X-Trace".to_string(), "1".to_string())], None);
    assert!(guest_response_to_wire(resp).is_ok());
}

#[test]
fn control_byte_in_header_value_is_conversion_failure() {
    let resp = GuestResponse::new(200, vec![("n".to_string(), "a\u{0001}b".to_string())], None);
    let e = guest_response_to_wire(resp).unwrap_err();
    assert_eq!(e.kind, ErrorKind::ConversionFailure);
}

#[test]
fn tab_in_header_value_is_accepted() {
    let resp = GuestResponse::new(200, vec![("n".to_string(), "a\tb".to_string())], None);
    assert!(guest_response_to_wire(resp).is_ok());
}
