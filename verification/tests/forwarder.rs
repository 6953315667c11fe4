use egress_proxy::border::host_control::Destination;
use egress_proxy::context::Header;
use egress_proxy::context::RequestContext;
use egress_proxy::handlers::proxy::body_size_of;
use egress_proxy::handlers::proxy::compose_url;
use egress_proxy::handlers::proxy::failure;
use egress_proxy::handlers::proxy::forward;
use egress_proxy::handlers::proxy::include_header;
use egress_proxy::handlers::proxy::relay;
use egress_proxy::handlers::proxy::respond;
use egress_proxy::handlers::proxy::ForwardError;
use egress_proxy::metrics::MetricsCollection;
use std::time::Duration;

fn request(path: &str, query: Option<&str>, headers: Vec<Header>, peer: Option<&str>) -> RequestContext {
    RequestContext {
        method: "POST".to_string(),
        path: path.to_string(),
        query: query.map(|q| q.to_string()),
        headers,
        peer_addr: peer.map(|p| p.to_string()),
    }
}

#[test]
fn url_is_origin_path_and_query() {
    let dest = Destination::new("10.0.0.5", 9090);
    assert_eq!(
        compose_url(&dest, "/orders", Some("id=7")),
        Some("http://10.0.0.5:9090/orders?id=7".to_string())
    );
}

#[test]
fn url_without_query_has_no_question_mark() {
    let dest = Destination::new("10.0.0.5", 9090);
    assert_eq!(compose_url(&dest, "/orders", None), Some("http://10.0.0.5:9090/orders".to_string()));
}

#[test]
fn url_with_empty_query_keeps_the_question_mark() {
    let dest = Destination::new("upstream.internal", 8080);
    assert_eq!(
        compose_url(&dest, "/a/b", Some("")),
        Some("http://upstream.internal:8080/a/b?".to_string())
    );
}

#[test]
fn url_of_root_path() {
    let dest = Destination::new("upstream.internal", 8080);
    assert_eq!(compose_url(&dest, "/", None), Some("http://upstream.internal:8080/".to_string()));
}

#[test]
fn url_keeps_an_encoded_path_as_it_is() {
    let dest = Destination::new("upstream.internal", 8080);
    assert_eq!(
        compose_url(&dest, "/a%20b/c", Some("x=1&y=%2F")),
        Some("http://upstream.internal:8080/a%20b/c?x=1&y=%2F".to_string())
    );
}

#[test]
fn url_for_a_host_that_is_no_host_is_none() {
    let dest = Destination::new("bad host", 8080);
    assert_eq!(compose_url(&dest, "/", None), None);
}

#[test]
fn hop_by_hop_headers_are_not_included() {
    assert!(!include_header("Connection"));
    assert!(!include_header("connection"));
    assert!(!include_header("Content-Length"));
    assert!(!include_header("CONTENT-ENCODING"));
}

#[test]
fn other_headers_are_included() {
    assert!(include_header("Content-Type"));
    assert!(include_header("Content-Lengthy"));
    assert!(include_header("X-Connection"));
    assert!(include_header("Keep-Alive"));
    assert!(include_header(""));
}

#[test]
fn forward_copies_method_and_headers_and_sets_forwarded_for() {
    let mut metrics = MetricsCollection::new();
    let req = request(
        "/orders",
        Some("id=7"),
        vec![
            Header::new("Accept", "*/*"),
            Header::new("X-Forwarded-For", "1.1.1.1"),
            Header::new("Connection", "close"),
            Header::new("x-forwarded-for", "2.2.2.2"),
        ],
        Some("192.168.1.9"),
    );
    let out = forward(&req, &Destination::new("10.0.0.5", 9090), &mut metrics).unwrap();
    assert_eq!(out.url, "http://10.0.0.5:9090/orders?id=7");
    assert_eq!(out.method, "POST");
    assert_eq!(
        out.headers,
        vec![
            Header::new("Accept", "*/*"),
            Header::new("Connection", "close"),
            Header::new("x-forwarded-for", "192.168.1.9"),
        ]
    );
}

#[test]
fn forward_without_peer_leaves_headers_as_they_came() {
    let mut metrics = MetricsCollection::new();
    let headers = vec![Header::new("Accept", "*/*"), Header::new("X-Forwarded-For", "1.1.1.1")];
    let req = request("/", None, headers.clone(), None);
    let out = forward(&req, &Destination::new("10.0.0.5", 9090), &mut metrics).unwrap();
    assert_eq!(out.headers, headers);
    assert_eq!(out.url, "http://10.0.0.5:9090/");
}

#[test]
fn forward_shows_the_announced_body_size() {
    let mut metrics = MetricsCollection::new();
    assert_eq!(metrics.current_body_size(), 0);
    let req = request("/", None, vec![Header::new("Content-Length", "42")], None);
    forward(&req, &Destination::new("10.0.0.5", 9090), &mut metrics).unwrap();
    assert_eq!(metrics.current_body_size(), 42);
}

#[test]
fn forward_leaves_the_gauge_where_no_size_is_announced() {
    let mut metrics = MetricsCollection::new();
    metrics.record_body_size(17);
    let dest = Destination::new("10.0.0.5", 9090);
    forward(&request("/", None, vec![], None), &dest, &mut metrics).unwrap();
    assert_eq!(metrics.current_body_size(), 17);
    let odd = request("/", None, vec![Header::new("Content-Length", "12 bytes")], None);
    forward(&odd, &dest, &mut metrics).unwrap();
    assert_eq!(metrics.current_body_size(), 17);
}

#[test]
fn forward_to_a_destination_without_url_fails() {
    let mut metrics = MetricsCollection::new();
    let req = request("/", None, vec![Header::new("Content-Length", "5")], None);
    let r = forward(&req, &Destination::new("bad host", 1), &mut metrics);
    assert_eq!(r.err(), Some(ForwardError::InvalidUrl));
    assert_eq!(metrics.current_body_size(), 5);
}

#[test]
fn announced_body_size_is_read_from_content_length() {
    assert_eq!(body_size_of(&request("/", None, vec![Header::new("content-length", "0")], None)), Some(0));
    assert_eq!(
        body_size_of(&request("/", None, vec![Header::new("Content-Length", "9223372036854775807")], None)),
        Some(i64::MAX)
    );
    assert_eq!(
        body_size_of(&request("/", None, vec![Header::new("Content-Length", "9223372036854775808")], None)),
        None
    );
    assert_eq!(body_size_of(&request("/", None, vec![Header::new("Content-Length", "")], None)), None);
    assert_eq!(body_size_of(&request("/", None, vec![], None)), None);
}

#[test]
fn relayed_response_omits_connection_header() {
    let upstream = vec![
        Header::new("Content-Type", "application/json"),
        Header::new("Connection", "keep-alive"),
        Header::new("X-Request-Id", "abc"),
    ];
    let r = respond(200, &upstream, Duration::from_millis(12));
    assert_eq!(r.status, 200);
    assert_eq!(
        r.headers,
        vec![Header::new("Content-Type", "application/json"), Header::new("X-Request-Id", "abc")]
    );
    assert_eq!(r.metadata.peek_egress(), Some(Duration::from_millis(12)));
}

#[test]
fn relayed_response_omits_all_hop_by_hop_headers_in_any_case() {
    let upstream = vec![
        Header::new("content-length", "10"),
        Header::new("CONNECTION", "close"),
        Header::new("Content-Encoding", "gzip"),
        Header::new("Set-Cookie", "a=1"),
        Header::new("Set-Cookie", "b=2"),
        Header::new("connection", "again"),
    ];
    let r = respond(404, &upstream, Duration::from_secs(0));
    assert_eq!(r.status, 404);
    assert_eq!(r.headers, vec![Header::new("Set-Cookie", "a=1"), Header::new("Set-Cookie", "b=2")]);
}

#[test]
fn relayed_response_of_no_headers() {
    let r = respond(204, &Vec::new(), Duration::from_nanos(1));
    assert_eq!(r.status, 204);
    assert!(r.headers.is_empty());
}

#[test]
fn relay_reads_the_stopwatch() {
    let mut metrics = MetricsCollection::new();
    let req = request("/", None, vec![], None);
    let out = forward(&req, &Destination::new("10.0.0.5", 9090), &mut metrics).unwrap();
    let began = std::time::Instant::now();
    while began.elapsed() < Duration::from_millis(2) {}
    let r = relay(&out, 200, &vec![Header::new("Connection", "close")]);
    assert_eq!(r.status, 200);
    assert!(r.headers.is_empty());
    assert!(r.metadata.peek_egress().unwrap() >= Duration::from_millis(2));
    assert!(r.metadata.peek_egress().unwrap() < Duration::from_secs(10));
}

#[test]
fn failures_map_to_server_errors() {
    assert_eq!(ForwardError::ConnectTimeout.status(), 504);
    assert_eq!(ForwardError::Connect.status(), 502);
    assert_eq!(ForwardError::Timeout.status(), 500);
    assert_eq!(ForwardError::Stream.status(), 500);
    assert_eq!(ForwardError::InvalidUrl.status(), 500);
}

#[test]
fn failure_response_has_no_headers_and_no_egress_time() {
    let r = failure(ForwardError::Connect);
    assert_eq!(r.status, 502);
    assert!(r.headers.is_empty());
    assert_eq!(r.metadata.peek_egress(), None);
}
