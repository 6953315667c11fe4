use egress_proxy::context::header_value;
use egress_proxy::context::Header;
use egress_proxy::context::RequestContext;
use egress_proxy::context::ResponseMetadata;
use egress_proxy::text::eq_ignore_case;
use egress_proxy::text::push_decimal;
use std::time::Duration;

#[test]
fn names_compare_without_regard_to_ascii_case() {
    assert!(eq_ignore_case("Content-Length", "content-length"));
    assert!(eq_ignore_case("X-DESTINATION", "x-destination"));
    assert!(eq_ignore_case("", ""));
    assert!(!eq_ignore_case("Content-Length", "Content-Lengt"));
    assert!(!eq_ignore_case("a", "b"));
    assert!(!eq_ignore_case("a-b", "a_b"));
}

#[test]
fn only_ascii_letters_are_folded() {
    assert!(!eq_ignore_case("@", "`"));
    assert!(!eq_ignore_case("[", "{"));
    assert!(eq_ignore_case("Z", "z"));
    assert!(eq_ignore_case("A", "a"));
    assert!(!eq_ignore_case("\u{c9}", "\u{e9}"));
    assert!(eq_ignore_case("\u{e9}X", "\u{e9}x"));
}

#[test]
fn decimal_is_appended() {
    let mut out = String::from("n=");
    push_decimal(&mut out, 0);
    assert_eq!(out, "n=0");
    push_decimal(&mut out, 9);
    push_decimal(&mut out, 10);
    push_decimal(&mut out, 65535);
    assert_eq!(out, "n=091065535");
}

#[test]
fn first_header_of_a_name_is_found() {
    let headers = vec![
        Header::new("Accept", "a"),
        Header::new("accept", "b"),
        Header::new("Host", "h"),
    ];
    assert_eq!(header_value(&headers, "ACCEPT"), Some(&"a".to_string()));
    assert_eq!(header_value(&headers, "host"), Some(&"h".to_string()));
    assert_eq!(header_value(&headers, "missing"), None);
    assert_eq!(header_value(&Vec::new(), "host"), None);
}

#[test]
fn request_header_lookup() {
    let req = RequestContext {
        method: "GET".to_string(),
        path: "/".to_string(),
        query: None,
        headers: vec![Header::new("X-Destination", "svc1")],
        peer_addr: None,
    };
    assert_eq!(req.header("x-destination"), Some(&"svc1".to_string()));
    assert_eq!(req.header("x-other"), None);
}

#[test]
fn metadata_starts_empty() {
    assert_eq!(ResponseMetadata::new().peek_egress(), None);
}

#[test]
fn metadata_is_filled_once() {
    let mut m = ResponseMetadata::new();
    assert!(m.record_egress(Duration::from_millis(5)));
    assert!(!m.record_egress(Duration::from_millis(9)));
    assert_eq!(m.peek_egress(), Some(Duration::from_millis(5)));
}

#[test]
fn metadata_is_read_once() {
    let mut m = ResponseMetadata::new();
    m.record_egress(Duration::from_millis(5));
    assert_eq!(m.take_egress(), Some(Duration::from_millis(5)));
    assert_eq!(m.take_egress(), None);
    assert_eq!(m.peek_egress(), None);
}
