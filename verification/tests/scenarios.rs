use egress_proxy::border::host_control::Destination;
use egress_proxy::border::host_control::HostControlBuilder;
use egress_proxy::border::BorderControlBuilder;
use egress_proxy::config::Config;
use egress_proxy::config::ConfigError;
use egress_proxy::config::ListenAddress;
use egress_proxy::context::Header;
use egress_proxy::context::RequestContext;
use egress_proxy::handlers::proxy::forward;
use egress_proxy::handlers::proxy::relay;
use egress_proxy::metrics::MetricsCollection;
use egress_proxy::middleware::latency::MeasureLatencyCollection;
use egress_proxy::middleware::proxy_filter::ProxyFilterCollection;
use egress_proxy::middleware::proxy_filter::Verdict;

fn get(path: &str, query: Option<&str>, headers: Vec<Header>) -> RequestContext {
    RequestContext {
        method: "GET".to_string(),
        path: path.to_string(),
        query: query.map(|q| q.to_string()),
        headers,
        peer_addr: Some("172.16.0.4".to_string()),
    }
}

#[test]
fn default_destination_end_to_end() {
    let border = HostControlBuilder::new()
        .with_default_destination(Destination::new("10.0.0.5", 9090))
        .build();
    let mut latency = MeasureLatencyCollection::new().new_transform();
    let mut filter = ProxyFilterCollection::new().with_border(border).new_transform();
    let mut metrics = MetricsCollection::new();

    let req = get("/orders", Some("id=7"), vec![]);
    let timer = latency.start(&req);
    let dest = match filter.call(&req) {
        Verdict::Allowed(dest) => dest,
        Verdict::Denied(reason, _) => panic!("denied: {}", reason.reason()),
    };
    let outbound = forward(&req, &dest, &mut metrics).unwrap();
    assert_eq!(outbound.url, "http://10.0.0.5:9090/orders?id=7");
    assert_eq!(outbound.method, "GET");

    let mut response = relay(&outbound, 200, &vec![Header::new("Content-Type", "text/plain")]);
    let samples = latency.finish(timer, &mut response);
    assert_eq!(response.status, 200);
    assert_eq!(response.headers, vec![Header::new("Content-Type", "text/plain")]);
    assert_eq!(filter.allowed_count("GET"), 1);
    assert_eq!(filter.blocked_count("GET"), 0);
    assert!(samples.egress.is_some());
    assert!(samples.overhead.is_some());
    assert_eq!(latency.total_samples("GET"), 1);
    assert_eq!(latency.egress_samples("GET"), 1);
    assert_eq!(latency.overhead_samples("GET"), 1);
}

#[test]
fn empty_table_end_to_end() {
    let border = HostControlBuilder::new().build();
    let mut latency = MeasureLatencyCollection::new().new_transform();
    let mut filter = ProxyFilterCollection::new().with_border(border).new_transform();

    let requests = vec![
        get("/orders", Some("id=7"), vec![]),
        get("/", None, vec![Header::new("X-DESTINATION", "billing")]),
        get("/__other", None, vec![Header::new("X-DESTINATION", "default")]),
    ];
    let mut forwarded = 0;
    for req in &requests {
        let timer = latency.start(req);
        let mut response = match filter.call(req) {
            Verdict::Allowed(_) => {
                forwarded += 1;
                continue;
            }
            Verdict::Denied(_, response) => response,
        };
        let samples = latency.finish(timer, &mut response);
        assert_eq!(response.status, 406);
        assert_eq!(samples.egress, None);
        assert_eq!(samples.overhead, None);
    }
    assert_eq!(forwarded, 0);
    assert_eq!(filter.blocked_count("GET"), 3);
    assert_eq!(filter.allowed_count("GET"), 0);
    assert_eq!(latency.total_samples("GET"), 3);
    assert_eq!(latency.egress_samples("GET"), 0);
    assert_eq!(latency.overhead_samples("GET"), 0);
}

#[test]
fn named_destination_end_to_end() {
    let a = Destination::new("a.internal", 8080);
    let b = Destination::new("billing.internal", 8443);
    let border = HostControlBuilder::new()
        .with_default_destination(a)
        .with_named_destination("billing", b.clone())
        .build();
    let mut filter = ProxyFilterCollection::new().with_border(border).new_transform();
    let mut metrics = MetricsCollection::new();

    for path in ["/", "/invoices/2024", "/a/b/c"] {
        let req = get(path, None, vec![Header::new("X-DESTINATION", "billing")]);
        let dest = match filter.call(&req) {
            Verdict::Allowed(dest) => dest,
            Verdict::Denied(reason, _) => panic!("denied: {}", reason.reason()),
        };
        assert_eq!(dest, b);
        let outbound = forward(&req, &dest, &mut metrics).unwrap();
        assert_eq!(outbound.url, format!("http://billing.internal:8443{}", path));
        assert_eq!(
            outbound.headers,
            vec![
                Header::new("X-DESTINATION", "billing"),
                Header::new("x-forwarded-for", "172.16.0.4"),
            ]
        );
    }
    assert_eq!(filter.allowed_count("GET"), 3);
}

#[test]
fn config_with_listen_host_and_port() {
    let c = Config::from_values(Some("127.0.0.1"), Some(8000), "10.0.0.5:9090").unwrap();
    assert_eq!(
        c.listen_socket_address,
        Some(ListenAddress { host: "127.0.0.1".to_string(), port: 8000 })
    );
    assert_eq!(c.forward_url.as_str(), "http://10.0.0.5:9090/");
    assert!(!c.inherits_socket());
    assert_eq!(Destination::from_url(&c.forward_url), Some(Destination::new("10.0.0.5", 9090)));
}

#[test]
fn config_without_both_listen_values_inherits_the_socket() {
    let only_host = Config::from_values(Some("127.0.0.1"), None, "10.0.0.5:9090").unwrap();
    let only_port = Config::from_values(None, Some(8000), "10.0.0.5:9090").unwrap();
    let neither = Config::from_values(None, None, "10.0.0.5:9090").unwrap();
    assert_eq!(only_host.listen_socket_address, None);
    assert_eq!(only_port.listen_socket_address, None);
    assert_eq!(neither.listen_socket_address, None);
    assert!(neither.inherits_socket());
}

#[test]
fn config_with_a_forward_address_that_is_no_url_fails() {
    let r = Config::from_values(None, None, "10.0.0.5:notaport");
    assert_eq!(r.err(), Some(ConfigError::ForwardAddress));
}
