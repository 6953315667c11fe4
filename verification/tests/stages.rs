use egress_proxy::border::host_control::Destination;
use egress_proxy::border::host_control::HostControlBuilder;
use egress_proxy::border::BorderControlBuilder;
use egress_proxy::border::ClosedBorder;
use egress_proxy::border::Denial;
use egress_proxy::context::Header;
use egress_proxy::context::RequestContext;
use egress_proxy::context::ResponseContext;
use egress_proxy::context::ResponseMetadata;
use egress_proxy::handlers::metrics::gather;
use egress_proxy::handlers::metrics::route;
use egress_proxy::handlers::metrics::GatherError;
use egress_proxy::handlers::metrics::Route;
use egress_proxy::instruments::MetricsError;
use egress_proxy::metrics::MetricsCollection;
use egress_proxy::middleware::latency::latency_samples;
use egress_proxy::middleware::latency::MeasureLatencyCollection;
use egress_proxy::middleware::proxy_filter::rejection;
use egress_proxy::middleware::proxy_filter::ProxyFilterCollection;
use egress_proxy::middleware::proxy_filter::Verdict;
use std::time::Duration;

fn request(method: &str, headers: Vec<Header>) -> RequestContext {
    RequestContext {
        method: method.to_string(),
        path: "/".to_string(),
        query: None,
        headers,
        peer_addr: None,
    }
}

#[test]
fn new_filter_is_closed_and_counts_nothing() {
    let filter = ProxyFilterCollection::new().new_transform();
    assert_eq!(filter.allowed_count("GET"), 0);
    assert_eq!(filter.blocked_count("GET"), 0);
}

#[test]
fn default_filter_is_the_new_filter() {
    let mut filter = ProxyFilterCollection::default().new_transform();
    assert_eq!(filter.allowed_count("GET"), 0);
    assert_eq!(filter.blocked_count("GET"), 0);
    let verdict = filter.call(&request("GET", vec![]));
    assert_eq!(verdict, Verdict::Denied(Denial::NoDestinationsConfigured, rejection()));
    assert_eq!(filter.blocked_count("GET"), 1);
}

#[test]
fn registry_that_holds_one_counter_refuses_the_pair_but_takes_the_other() {
    let mut registry = prometheus::Registry::new();
    let first = ProxyFilterCollection::new();
    let second = ProxyFilterCollection::new();
    assert!(first.register(&mut registry));
    assert!(!second.register(&mut registry));
    let mut filter = second.new_transform();
    filter.call(&request("GET", vec![]));
    let mut shown = first.new_transform();
    shown.call(&request("GET", vec![]));
    shown.call(&request("GET", vec![]));
    let families = registry.gather();
    assert_eq!(families.len(), 1);
    assert_eq!(families[0].get_metric().len(), 1);
    assert_eq!(families[0].get_metric()[0].get_counter().get_value() as i64, 2);
}

#[test]
fn closed_filter_rejects_and_counts_blocked_once() {
    let mut filter = ProxyFilterCollection::new().new_transform();
    let verdict = filter.call(&request("GET", vec![Header::new("X-DESTINATION", "svc1")]));
    assert_eq!(verdict, Verdict::Denied(Denial::NoDestinationsConfigured, rejection()));
    assert_eq!(filter.blocked_count("GET"), 1);
    assert_eq!(filter.allowed_count("GET"), 0);
    assert_eq!(filter.blocked_count("POST"), 0);
}

#[test]
fn rejection_is_not_acceptable_without_headers() {
    let r = rejection();
    assert_eq!(r.status, 406);
    assert!(r.headers.is_empty());
    assert_eq!(r.metadata.peek_egress(), None);
}

#[test]
fn every_denial_reason_gets_the_same_rejection() {
    let b = Destination::new("b.internal", 8081);
    let border = HostControlBuilder::new().with_named_destination("svc1", b).build();
    let mut filter = ProxyFilterCollection::new().with_border(border).new_transform();
    let unknown = filter.call(&request("PUT", vec![Header::new("X-DESTINATION", "nope")]));
    let no_default = filter.call(&request("PUT", vec![]));
    assert_eq!(unknown, Verdict::Denied(Denial::UnknownDestinationName, rejection()));
    assert_eq!(no_default, Verdict::Denied(Denial::NoDefaultDestination, rejection()));
    assert_eq!(filter.blocked_count("PUT"), 2);
    assert_eq!(filter.allowed_count("PUT"), 0);
}

#[test]
fn allowed_request_is_counted_by_method() {
    let a = Destination::new("a.internal", 8080);
    let border = HostControlBuilder::new().with_default_destination(a.clone()).build();
    let mut filter = ProxyFilterCollection::new().with_border(border).new_transform();
    assert_eq!(filter.call(&request("GET", vec![])), Verdict::Allowed(a.clone()));
    assert_eq!(filter.call(&request("GET", vec![])), Verdict::Allowed(a.clone()));
    assert_eq!(filter.call(&request("DELETE", vec![])), Verdict::Allowed(a));
    assert_eq!(filter.allowed_count("GET"), 2);
    assert_eq!(filter.allowed_count("DELETE"), 1);
    assert_eq!(filter.allowed_count("POST"), 0);
    assert_eq!(filter.blocked_count("GET"), 0);
    assert_eq!(filter.blocked_count("DELETE"), 0);
}

#[test]
fn filter_works_behind_a_border_of_another_kind() {
    let mut filter =
        ProxyFilterCollection::new().with_border(ClosedBorder::new()).new_transform();
    let verdict = filter.call(&request("GET", vec![]));
    assert_eq!(verdict, Verdict::Denied(Denial::NoDestinationsConfigured, rejection()));
    assert_eq!(filter.blocked_count("GET"), 1);
}

#[test]
fn filter_counters_can_be_registered_once() {
    let mut registry = prometheus::Registry::new();
    let collection = ProxyFilterCollection::new();
    assert!(collection.register(&mut registry));
    assert!(!collection.register(&mut registry));
    let mut filter = collection.new_transform();
    filter.call(&request("GET", vec![]));
    let names: Vec<String> = registry.gather().iter().map(|f| f.get_name().to_string()).collect();
    assert_eq!(names, vec!["egress_http_request_blocked_total".to_string()]);
}

#[test]
fn overhead_is_total_less_egress() {
    let s = latency_samples(Duration::from_millis(1500), Some(Duration::from_millis(1000)));
    assert_eq!(s.total, Duration::from_millis(1500));
    assert_eq!(s.egress, Some(Duration::from_millis(1000)));
    assert_eq!(s.overhead, Some(Duration::from_millis(500)));
    assert_eq!(s.overhead_in_nanos(), Some(500_000_000));
}

#[test]
fn overhead_is_zero_where_egress_equals_total() {
    let s = latency_samples(Duration::from_nanos(7), Some(Duration::from_nanos(7)));
    assert_eq!(s.overhead, Some(Duration::from_nanos(0)));
}

#[test]
fn overhead_is_clamped_to_zero_where_egress_exceeds_total() {
    let s = latency_samples(Duration::from_millis(10), Some(Duration::from_millis(11)));
    assert_eq!(s.overhead, Some(Duration::from_secs(0)));
    assert_eq!(s.overhead_in_nanos(), Some(0));
}

#[test]
fn no_overhead_without_egress() {
    let s = latency_samples(Duration::from_millis(10), None);
    assert_eq!(s.total, Duration::from_millis(10));
    assert_eq!(s.egress, None);
    assert_eq!(s.overhead, None);
    assert_eq!(s.overhead_in_nanos(), None);
}

#[test]
fn latency_stage_records_three_histograms_for_a_forwarded_request() {
    let mut stage = MeasureLatencyCollection::new().new_transform();
    let s = stage.record("GET", Duration::from_millis(30), Some(Duration::from_millis(20)));
    assert_eq!(s.overhead, Some(Duration::from_millis(10)));
    assert_eq!(stage.total_samples("GET"), 1);
    assert_eq!(stage.egress_samples("GET"), 1);
    assert_eq!(stage.overhead_samples("GET"), 1);
    assert_eq!(stage.total_samples("POST"), 0);
}

#[test]
fn latency_stage_records_only_the_total_for_a_denied_request() {
    let mut stage = MeasureLatencyCollection::new().new_transform();
    stage.record("GET", Duration::from_millis(3), None);
    stage.record("GET", Duration::from_millis(4), None);
    assert_eq!(stage.total_samples("GET"), 2);
    assert_eq!(stage.egress_samples("GET"), 0);
    assert_eq!(stage.overhead_samples("GET"), 0);
}

#[test]
fn latency_stage_times_a_request_and_empties_the_metadata() {
    let mut stage = MeasureLatencyCollection::new().new_transform();
    let timer = stage.start(&request("PATCH", vec![]));
    assert_eq!(timer.method, "PATCH");
    let began = std::time::Instant::now();
    while began.elapsed() < Duration::from_millis(3) {}
    let mut metadata = ResponseMetadata::new();
    metadata.record_egress(Duration::from_millis(1));
    let mut response =
        ResponseContext { status: 201, headers: vec![Header::new("A", "b")], metadata };
    let s = stage.finish(timer, &mut response);
    assert!(s.total >= Duration::from_millis(3));
    assert_eq!(s.egress, Some(Duration::from_millis(1)));
    assert_eq!(s.overhead, Some(s.total - Duration::from_millis(1)));
    assert_eq!(response.status, 201);
    assert_eq!(response.headers, vec![Header::new("A", "b")]);
    assert_eq!(response.metadata.peek_egress(), None);
    assert_eq!(stage.total_samples("PATCH"), 1);
    assert_eq!(stage.egress_samples("PATCH"), 1);
    assert_eq!(stage.overhead_samples("PATCH"), 1);
}

#[test]
fn latency_histograms_can_be_registered_once() {
    let mut registry = prometheus::Registry::new();
    let collection = MeasureLatencyCollection::new();
    assert!(collection.register(&mut registry));
    assert!(!collection.register(&mut registry));
    let mut stage = collection.new_transform();
    stage.record("GET", Duration::from_millis(30), None);
    let names: Vec<String> = registry.gather().iter().map(|f| f.get_name().to_string()).collect();
    assert_eq!(names, vec!["egress_http_proxy_total_duration_seconds".to_string()]);
}

#[test]
fn body_size_gauge_starts_at_zero_and_can_be_registered() {
    let mut registry = prometheus::Registry::new();
    let mut metrics = MetricsCollection::new();
    assert_eq!(metrics.current_body_size(), 0);
    assert!(metrics.register(&mut registry));
    assert!(!metrics.register(&mut registry));
    metrics.record_body_size(-3);
    assert_eq!(metrics.current_body_size(), -3);
    let families = registry.gather();
    assert_eq!(families.len(), 1);
    assert_eq!(families[0].get_name(), "egress_http_response_size_bytes");
}

#[test]
fn gauge_under_a_name_that_is_none_is_rejected() {
    assert_eq!(MetricsCollection::named("", "help").err(), Some(MetricsError::Rejected));
    assert_eq!(MetricsCollection::named("two words", "help").err(), Some(MetricsError::Rejected));
    assert_eq!(MetricsCollection::named("size_bytes", "").err(), Some(MetricsError::Rejected));
}

#[test]
fn gauge_under_a_name_with_colon_and_digits() {
    assert!(MetricsCollection::named("gw:body_bytes_2", "x").is_ok());
    assert!(MetricsCollection::named(":", "x").is_ok());
    assert!(MetricsCollection::named("_", "x").is_ok());
    assert_eq!(MetricsCollection::named("2gw", "x").err(), Some(MetricsError::Rejected));
    assert_eq!(MetricsCollection::named("gw-bytes", "x").err(), Some(MetricsError::Rejected));
    assert_eq!(MetricsCollection::named("gw\u{e9}", "x").err(), Some(MetricsError::Rejected));
}

#[test]
fn every_series_carries_realm_and_pipeline() {
    let mut registry = prometheus::Registry::new();
    let filter = ProxyFilterCollection::new();
    let latency = MeasureLatencyCollection::new();
    let mut metrics = MetricsCollection::new();
    assert!(filter.register(&mut registry));
    assert!(latency.register(&mut registry));
    assert!(metrics.register(&mut registry));
    let mut filter = filter.new_transform();
    let mut latency = latency.new_transform();
    filter.call(&request("GET", vec![]));
    latency.record("GET", Duration::from_millis(2), Some(Duration::from_millis(1)));
    metrics.record_body_size(1);
    let families = registry.gather();
    assert_eq!(families.len(), 5);
    for family in families.iter() {
        for metric in family.get_metric() {
            let labels: Vec<(String, String)> = metric
                .get_label()
                .iter()
                .map(|l| (l.get_name().to_string(), l.get_value().to_string()))
                .collect();
            assert!(labels.contains(&("realm".to_string(), "ex-realm".to_string())));
            assert!(labels.contains(&("pipeline_id".to_string(), "ex-pipeline-id".to_string())));
        }
    }
}

#[test]
fn standard_methods_are_counted_apart() {
    let a = Destination::new("a.internal", 8080);
    let border = HostControlBuilder::new().with_default_destination(a).build();
    let mut filter = ProxyFilterCollection::new().with_border(border).new_transform();
    let methods = ["GET", "POST", "PUT", "DELETE", "PATCH", "HEAD", "OPTIONS", "CONNECT", "TRACE"];
    for (i, method) in methods.iter().enumerate() {
        for _ in 0..=i {
            filter.call(&request(method, vec![]));
        }
    }
    for (i, method) in methods.iter().enumerate() {
        assert_eq!(filter.allowed_count(method), i as i64 + 1);
        assert_eq!(filter.blocked_count(method), 0);
    }
}

#[test]
fn clamped_overhead_is_recorded_without_panic() {
    let mut stage = MeasureLatencyCollection::new().new_transform();
    let s = stage.record("GET", Duration::from_millis(5), Some(Duration::from_millis(7)));
    assert_eq!(s.total, Duration::from_millis(5));
    assert_eq!(s.egress, Some(Duration::from_millis(7)));
    assert_eq!(s.overhead, Some(Duration::from_millis(0)));
    assert_eq!(stage.total_samples("GET"), 1);
    assert_eq!(stage.egress_samples("GET"), 1);
    assert_eq!(stage.overhead_samples("GET"), 1);
}

#[test]
fn gauge_under_a_name_of_its_own() {
    let mut metrics = MetricsCollection::named("upstream_body_bytes", "Announced size.").unwrap();
    metrics.record_body_size(9);
    assert_eq!(metrics.current_body_size(), 9);
}

#[test]
fn metrics_path_takes_get_only() {
    assert_eq!(route("GET", "/__proxy/metrics"), Route::Metrics);
    assert_eq!(route("POST", "/__proxy/metrics"), Route::MethodNotAllowed);
    assert_eq!(route("get", "/__proxy/metrics"), Route::MethodNotAllowed);
    assert_eq!(route("", "/__proxy/metrics"), Route::MethodNotAllowed);
}

#[test]
fn every_other_path_is_proxied() {
    assert_eq!(route("GET", "/"), Route::Proxy);
    assert_eq!(route("GET", "/__proxy/metrics/"), Route::Proxy);
    assert_eq!(route("GET", "/__proxy/Metrics"), Route::Proxy);
    assert_eq!(route("DELETE", "/orders"), Route::Proxy);
    assert_eq!(route("GET", ""), Route::Proxy);
}

#[test]
fn snapshot_text_is_the_encoded_bytes() {
    assert_eq!(gather(Some(b"# HELP x y\nx 1\n".to_vec())), Ok("# HELP x y\nx 1\n".to_string()));
    assert_eq!(gather(Some(Vec::new())), Ok(String::new()));
    assert_eq!(gather(Some(vec![0xc3, 0xa9])), Ok("\u{e9}".to_string()));
}

#[test]
fn snapshot_of_bytes_that_are_no_text_fails() {
    assert_eq!(gather(Some(vec![0xff, 0xfe])), Err(GatherError::NotText));
    assert_eq!(gather(Some(vec![b'a', 0xc3])), Err(GatherError::NotText));
}

#[test]
fn snapshot_without_bytes_fails() {
    assert_eq!(gather(None), Err(GatherError::Encoding));
}

#[test]
fn snapshot_failures_are_server_errors() {
    assert_eq!(GatherError::Encoding.status(), 500);
    assert_eq!(GatherError::NotText.status(), 500);
}
