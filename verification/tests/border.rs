use egress_proxy::border::host_control::BorderPolicy;
use egress_proxy::border::host_control::Destination;
use egress_proxy::border::host_control::HostControlBuilder;
use egress_proxy::border::host_control::SingleHostBorder;
use egress_proxy::border::BorderControl;
use egress_proxy::border::BorderControlBuilder;
use egress_proxy::border::ClosedBorder;
use egress_proxy::border::Denial;
use egress_proxy::context::Header;
use egress_proxy::context::RequestContext;

fn request(headers: Vec<Header>) -> RequestContext {
    RequestContext {
        method: "GET".to_string(),
        path: "/".to_string(),
        query: None,
        headers,
        peer_addr: None,
    }
}

fn two_hosts() -> (Destination, Destination, egress_proxy::border::host_control::Border) {
    let a = Destination::new("a.internal", 8080);
    let b = Destination::new("b.internal", 8081);
    let border = HostControlBuilder::new()
        .with_default_destination(a.clone())
        .with_named_destination("svc1", b.clone())
        .build();
    (a, b, border)
}

#[test]
fn empty_table_gives_closed_policy() {
    let border = HostControlBuilder::new().build();
    assert_eq!(border.policy(), BorderPolicy::Closed);
}

#[test]
fn default_alone_gives_single_host_policy() {
    let border = HostControlBuilder::new()
        .with_default_destination(Destination::new("a.internal", 8080))
        .build();
    assert_eq!(border.policy(), BorderPolicy::SingleHost);
}

#[test]
fn named_entry_alone_gives_multi_host_policy() {
    let border = HostControlBuilder::new()
        .with_named_destination("svc1", Destination::new("b.internal", 8081))
        .build();
    assert_eq!(border.policy(), BorderPolicy::MultiHost);
}

#[test]
fn default_and_named_give_multi_host_policy() {
    let (_, _, border) = two_hosts();
    assert_eq!(border.policy(), BorderPolicy::MultiHost);
}

#[test]
fn naming_the_default_by_its_key_sets_the_default() {
    let border = HostControlBuilder::new()
        .with_named_destination("default", Destination::new("a.internal", 8080))
        .build();
    assert_eq!(border.policy(), BorderPolicy::SingleHost);
}

#[test]
fn closed_border_denies_with_no_destinations_configured() {
    let border = HostControlBuilder::new().build();
    let req = request(vec![Header::new("X-DESTINATION", "svc1")]);
    assert_eq!(border.request_visa(&req), Err(Denial::NoDestinationsConfigured));
    assert_eq!(border.request_visa(&request(vec![])), Err(Denial::NoDestinationsConfigured));
}

#[test]
fn closed_border_on_its_own_denies() {
    let border = ClosedBorder::new();
    assert_eq!(border.request_visa(&request(vec![])), Err(Denial::NoDestinationsConfigured));
}

#[test]
fn single_host_ignores_the_destination_header() {
    let a = Destination::new("a.internal", 8080);
    let border = HostControlBuilder::new().with_default_destination(a.clone()).build();
    let plain = request(vec![]);
    let named = request(vec![Header::new("X-DESTINATION", "svc1")]);
    let odd = request(vec![Header::new("x-destination", "")]);
    assert_eq!(border.request_visa(&plain), Ok(&a));
    assert_eq!(border.request_visa(&named), Ok(&a));
    assert_eq!(border.request_visa(&odd), Ok(&a));
}

#[test]
fn single_host_border_from_host_and_port() {
    let border = SingleHostBorder::from_host_and_port("a.internal", 8080);
    let named = request(vec![Header::new("X-DESTINATION", "svc1")]);
    assert_eq!(border.request_visa(&named), Ok(&Destination::new("a.internal", 8080)));
}

#[test]
fn multi_host_header_picks_the_named_destination() {
    let (_, b, border) = two_hosts();
    let req = request(vec![Header::new("X-DESTINATION", "svc1")]);
    assert_eq!(border.request_visa(&req), Ok(&b));
}

#[test]
fn multi_host_without_header_goes_to_the_default() {
    let (a, _, border) = two_hosts();
    assert_eq!(border.request_visa(&request(vec![])), Ok(&a));
}

#[test]
fn multi_host_unknown_name_is_denied_and_not_defaulted() {
    let (_, _, border) = two_hosts();
    let req = request(vec![Header::new("X-DESTINATION", "unknown")]);
    assert_eq!(border.request_visa(&req), Err(Denial::UnknownDestinationName));
}

#[test]
fn multi_host_without_header_and_without_default_is_denied() {
    let border = HostControlBuilder::new()
        .with_named_destination("svc1", Destination::new("b.internal", 8081))
        .build();
    assert_eq!(border.request_visa(&request(vec![])), Err(Denial::NoDefaultDestination));
}

#[test]
fn multi_host_header_name_is_case_insensitive() {
    let (_, b, border) = two_hosts();
    let req = request(vec![Header::new("x-Destination", "svc1")]);
    assert_eq!(border.request_visa(&req), Ok(&b));
}

#[test]
fn multi_host_header_value_is_case_sensitive() {
    let (_, _, border) = two_hosts();
    let req = request(vec![Header::new("X-DESTINATION", "SVC1")]);
    assert_eq!(border.request_visa(&req), Err(Denial::UnknownDestinationName));
}

#[test]
fn multi_host_header_naming_the_default_key_is_a_plain_lookup() {
    let (a, _, border) = two_hosts();
    let req = request(vec![Header::new("X-DESTINATION", "default")]);
    assert_eq!(border.request_visa(&req), Ok(&a));
}

#[test]
fn multi_host_first_destination_header_counts() {
    let (_, b, border) = two_hosts();
    let req = request(vec![
        Header::new("Accept", "*/*"),
        Header::new("X-DESTINATION", "svc1"),
        Header::new("X-DESTINATION", "unknown"),
    ]);
    assert_eq!(border.request_visa(&req), Ok(&b));
}

#[test]
fn later_entry_replaces_earlier_one_of_the_same_name() {
    let b2 = Destination::new("b2.internal", 9000);
    let border = HostControlBuilder::new()
        .with_named_destination("svc1", Destination::new("b.internal", 8081))
        .with_named_destination("svc1", b2.clone())
        .build();
    let req = request(vec![Header::new("X-DESTINATION", "svc1")]);
    assert_eq!(border.request_visa(&req), Ok(&b2));
}

#[test]
fn resolving_twice_gives_the_same_answer() {
    let (_, _, border) = two_hosts();
    let req = request(vec![Header::new("X-DESTINATION", "svc1")]);
    let first = border.request_visa(&req).map(|d| d.clone());
    let second = border.request_visa(&req).map(|d| d.clone());
    assert_eq!(first, second);
    let unknown = request(vec![Header::new("X-DESTINATION", "nope")]);
    assert_eq!(border.request_visa(&unknown), border.request_visa(&unknown));
}

#[test]
fn denial_reasons_in_words() {
    assert_eq!(Denial::NoDestinationsConfigured.reason(), "no destinations configured");
    assert_eq!(Denial::UnknownDestinationName.reason(), "unknown destination name");
    assert_eq!(Denial::NoDefaultDestination.reason(), "no default destination");
}

#[test]
fn destination_keeps_host_and_port() {
    let d = Destination::new("10.0.0.5", 9090);
    assert_eq!(d.host(), "10.0.0.5");
    assert_eq!(d.port(), 9090);
    assert_eq!(d.duplicate(), d);
}

#[test]
fn destination_origin_text() {
    assert_eq!(Destination::new("10.0.0.5", 9090).origin(), "http://10.0.0.5:9090");
    assert_eq!(Destination::new("h", 0).origin(), "http://h:0");
    assert_eq!(Destination::new("h", 7).origin(), "http://h:7");
    assert_eq!(Destination::new("h", 80).origin(), "http://h:80");
    assert_eq!(Destination::new("h", 65535).origin(), "http://h:65535");
    assert_eq!(Destination::new("h", 1000).origin(), "http://h:1000");
}

#[test]
fn destination_from_url_with_port() {
    let url = url::Url::parse("http://10.0.0.5:9090/some/path").unwrap();
    assert_eq!(Destination::from_url(&url), Some(Destination::new("10.0.0.5", 9090)));
}

#[test]
fn destination_from_url_without_port_takes_eighty() {
    let url = url::Url::parse("http://example.com/").unwrap();
    assert_eq!(Destination::from_url(&url), Some(Destination::new("example.com", 80)));
}

#[test]
fn destination_from_url_without_host_is_none() {
    let url = url::Url::parse("data:text/plain,Stuff").unwrap();
    assert_eq!(Destination::from_url(&url), None);
}
