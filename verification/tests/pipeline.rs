use transport_channel::endpoint::Endpoint;
use transport_channel::pipeline::{Layer, Outbound, Pipeline};
use transport_channel::request::{is_lower_case, Header, RequestHead};
use transport_channel::span::TimeSpan;
use transport_channel::uri::Uri;

fn target() -> Uri {
    Uri::parse("http://backend.internal:50051").unwrap()
}

fn endpoint() -> Endpoint {
    Endpoint::new(target(), "client/1.0".to_string())
}

fn header(name: &str, value: &str) -> Header {
    Header { name: name.to_string(), value: value.to_string() }
}

fn request(uri: &str, headers: Vec<Header>) -> RequestHead {
    RequestHead::new(Uri::parse(uri).unwrap(), headers).unwrap()
}

#[test]
fn pipeline_without_limits_has_four_layers_in_order() {
    let p = Pipeline::assemble(&endpoint(), true);
    assert_eq!(p.len(), 4);
    assert_eq!(
        p.layers(),
        &vec![
            Layer::AddOrigin {
                scheme: Some("http".to_string()),
                authority: Some("backend.internal:50051".to_string()),
            },
            Layer::UserAgent { value: "client/1.0".to_string() },
            Layer::Timeout { limit: None },
            Layer::Reconnect { target: target(), lazy: true },
        ]
    );
}

#[test]
fn pipeline_with_both_limits_has_six_layers_in_order() {
    let e = endpoint()
        .origin(Uri::parse("https://front.example.org").unwrap())
        .timeout(TimeSpan::from_secs(2))
        .concurrency_limit(8)
        .unwrap()
        .rate_limit(100, TimeSpan::from_secs(1))
        .unwrap();
    let p = Pipeline::assemble(&e, false);
    assert_eq!(p.len(), 6);
    assert_eq!(
        p.layers(),
        &vec![
            Layer::AddOrigin {
                scheme: Some("https".to_string()),
                authority: Some("front.example.org".to_string()),
            },
            Layer::UserAgent { value: "client/1.0".to_string() },
            Layer::Timeout { limit: Some(TimeSpan::from_secs(2)) },
            Layer::ConcurrencyLimit { max: 8 },
            Layer::RateLimit { permits: 100, per: TimeSpan::from_secs(1) },
            Layer::Reconnect { target: target(), lazy: false },
        ]
    );
}

#[test]
fn pipeline_with_rate_limit_only_puts_it_before_reconnect() {
    let e = endpoint().rate_limit(3, TimeSpan::from_millis(250)).unwrap();
    let p = Pipeline::assemble(&e, true);
    assert_eq!(p.len(), 5);
    assert_eq!(p.layer(3), &Layer::RateLimit { permits: 3, per: TimeSpan::from_millis(250) });
    assert_eq!(p.layer(4), &Layer::Reconnect { target: target(), lazy: true });
}

#[test]
fn pipeline_with_concurrency_limit_only_puts_it_after_the_deadline() {
    let e = endpoint().concurrency_limit(1).unwrap();
    let p = Pipeline::assemble(&e, true);
    assert_eq!(p.len(), 5);
    assert_eq!(p.layer(2), &Layer::Timeout { limit: None });
    assert_eq!(p.layer(3), &Layer::ConcurrencyLimit { max: 1 });
    assert_eq!(p.layer(4), &Layer::Reconnect { target: target(), lazy: true });
}

#[test]
fn authority_on_the_wire_is_the_target_when_no_origin_is_set() {
    let p = Pipeline::assemble(&endpoint(), true);
    let out = p.prepare(request("https://elsewhere.example.net/pkg.Svc/Do?x=1", vec![]), None);
    assert_eq!(out.head.uri().authority.as_deref(), Some("backend.internal:50051"));
    assert_eq!(out.head.uri().scheme.as_deref(), Some("http"));
    assert_eq!(out.head.uri().path_and_query.as_deref(), Some("/pkg.Svc/Do?x=1"));
}

#[test]
fn authority_on_the_wire_is_the_origin_when_one_is_set() {
    let e = endpoint().origin(Uri::parse("https://front.example.org:443").unwrap());
    let p = Pipeline::assemble(&e, true);
    let out = p.prepare(request("/pkg.Svc/Do", vec![]), None);
    assert_eq!(out.head.uri().authority.as_deref(), Some("front.example.org:443"));
    assert_eq!(out.head.uri().scheme.as_deref(), Some("https"));
    assert_eq!(out.head.uri().path_and_query.as_deref(), Some("/pkg.Svc/Do"));
}

#[test]
fn identification_header_is_added_when_absent() {
    let p = Pipeline::assemble(&endpoint(), true);
    let out = p.prepare(request("/pkg.Svc/Do", vec![header("te", "trailers")]), None);
    assert_eq!(
        out.head.headers(),
        &vec![header("te", "trailers"), header("user-agent", "client/1.0")]
    );
    assert_eq!(out.head.count_header(&"user-agent".to_string()), 1);
}

#[test]
fn identification_header_replaces_every_earlier_one() {
    let p = Pipeline::assemble(&endpoint(), true);
    let out = p.prepare(
        request(
            "/pkg.Svc/Do",
            vec![
                header("user-agent", "spoof/0.1"),
                header("te", "trailers"),
                header("user-agent", "spoof/0.2"),
            ],
        ),
        None,
    );
    assert_eq!(
        out.head.headers(),
        &vec![header("te", "trailers"), header("user-agent", "client/1.0")]
    );
    assert_eq!(out.head.count_header(&"user-agent".to_string()), 1);
    assert_eq!(out.head.count_header(&"te".to_string()), 1);
}

#[test]
fn deadline_is_the_configured_time_when_the_caller_names_none() {
    let e = endpoint().timeout(TimeSpan::from_secs(2));
    let p = Pipeline::assemble(&e, true);
    let out = p.prepare(request("/a", vec![]), None);
    assert_eq!(out.deadline, Some(TimeSpan::from_secs(2)));
}

#[test]
fn deadline_of_the_caller_wins_over_the_configured_time() {
    let e = endpoint().timeout(TimeSpan::from_secs(2));
    let p = Pipeline::assemble(&e, true);
    let longer = p.prepare(request("/a", vec![]), Some(TimeSpan::from_secs(10)));
    assert_eq!(longer.deadline, Some(TimeSpan::from_secs(10)));
    let shorter = p.prepare(request("/a", vec![]), Some(TimeSpan::from_millis(5)));
    assert_eq!(shorter.deadline, Some(TimeSpan::from_millis(5)));
}

#[test]
fn no_deadline_where_neither_side_names_one() {
    let p = Pipeline::assemble(&endpoint(), true);
    let out = p.prepare(request("/a", vec![]), None);
    assert_eq!(out.deadline, None);
}

#[test]
fn admission_and_reconnect_layers_leave_the_request_alone() {
    let call = Outbound {
        head: request("http://h/a", vec![header("k", "v")]),
        deadline: Some(TimeSpan::from_secs(1)),
    };
    let same = Outbound {
        head: request("http://h/a", vec![header("k", "v")]),
        deadline: Some(TimeSpan::from_secs(1)),
    };
    let call = Layer::ConcurrencyLimit { max: 1 }.on_request(call);
    let call = Layer::RateLimit { permits: 1, per: TimeSpan::from_secs(1) }.on_request(call);
    let call = Layer::Reconnect { target: target(), lazy: true }.on_request(call);
    assert_eq!(call, same);
}

#[test]
fn set_header_on_an_empty_head_adds_one_line() {
    let head = request("/a", vec![]).set_header(&"k".to_string(), &"v".to_string()).unwrap();
    assert_eq!(head.headers(), &vec![header("k", "v")]);
}

#[test]
fn count_header_counts_lines_of_one_name() {
    let head = request("/a", vec![header("a", "1"), header("b", "2"), header("a", "3")]);
    assert_eq!(head.count_header(&"a".to_string()), 2);
    assert_eq!(head.count_header(&"b".to_string()), 1);
    assert_eq!(head.count_header(&"c".to_string()), 0);
}

#[test]
fn rewrite_origin_can_take_scheme_and_authority_away() {
    let head = request("http://h/a", vec![]).rewrite_origin(&None, &None);
    assert_eq!(head.uri(), &Uri::from_parts(None, None, Some("/a".to_string())));
}

#[test]
fn request_head_refuses_a_header_name_with_an_upper_case_letter() {
    let uri = Uri::parse("/a").unwrap();
    assert_eq!(RequestHead::new(uri.clone(), vec![header("User-Agent", "spoof")]), None);
    assert_eq!(
        RequestHead::new(uri.clone(), vec![header("te", "trailers"), header("x-Z", "1")]),
        None
    );
    assert!(RequestHead::new(uri.clone(), vec![header("x-9_z", "UPPER value")]).is_some());
    assert!(RequestHead::new(uri, vec![]).is_some());
}

#[test]
fn set_header_refuses_a_name_with_an_upper_case_letter() {
    let refused = request("/a", vec![]).set_header(&"User-Agent".to_string(), &"v".to_string());
    assert_eq!(refused, None);
    let taken = request("/a", vec![]).set_header(&"k@[`{".to_string(), &"v".to_string());
    assert_eq!(taken.map(|h| h.headers().len()), Some(1));
}

#[test]
fn is_lower_case_looks_at_the_letters_a_to_z_only() {
    assert!(is_lower_case(""));
    assert!(is_lower_case("user-agent"));
    assert!(is_lower_case("@[`{09"));
    assert!(!is_lower_case("A"));
    assert!(!is_lower_case("user-agenT"));
    assert!(!is_lower_case("Zz"));
}

#[test]
fn request_head_gives_its_parts_back() {
    let (uri, headers) = request("http://h/a", vec![header("k", "v")]).into_parts();
    assert_eq!(uri, Uri::parse("http://h/a").unwrap());
    assert_eq!(headers, vec![header("k", "v")]);
}

#[test]
fn tower_concurrency_layer_is_made_for_the_number_of_the_layer() {
    let made = Layer::ConcurrencyLimit { max: 7 }.concurrency_limit_layer().unwrap();
    assert_eq!(format!("{:?}", made), "ConcurrencyLimitLayer { max: 7 }");
}

#[test]
fn tower_rate_layer_is_made_for_the_permits_and_period_of_the_layer() {
    let made = Layer::RateLimit { permits: 100, per: TimeSpan::from_millis(2500) }
        .rate_limit_layer()
        .unwrap();
    assert_eq!(format!("{:?}", made), "RateLimitLayer { rate: Rate { num: 100, per: 2.5s } }");
}

#[test]
fn tower_concurrency_layer_only_for_the_concurrency_limit() {
    assert!(Layer::ConcurrencyLimit { max: 1 }.concurrency_limit_layer().is_some());
    assert!(Layer::ConcurrencyLimit { max: 0 }.concurrency_limit_layer().is_some());
    assert!(Layer::Timeout { limit: None }.concurrency_limit_layer().is_none());
    assert!(Layer::RateLimit { permits: 1, per: TimeSpan::from_secs(1) }
        .concurrency_limit_layer()
        .is_none());
}

#[test]
fn tower_rate_layer_only_for_a_positive_rate_limit() {
    assert!(Layer::RateLimit { permits: 1, per: TimeSpan::from_millis(1) }
        .rate_limit_layer()
        .is_some());
    assert!(Layer::RateLimit { permits: u64::MAX, per: TimeSpan::new(0, 1).unwrap() }
        .rate_limit_layer()
        .is_some());
    assert!(Layer::RateLimit { permits: 0, per: TimeSpan::from_secs(1) }
        .rate_limit_layer()
        .is_none());
    assert!(Layer::RateLimit { permits: 1, per: TimeSpan::zero() }.rate_limit_layer().is_none());
    assert!(Layer::ConcurrencyLimit { max: 1 }.rate_limit_layer().is_none());
}

#[test]
fn every_planned_admission_layer_has_its_tower_layer() {
    let e = endpoint()
        .concurrency_limit(1)
        .unwrap()
        .rate_limit(10, TimeSpan::from_secs(1))
        .unwrap();
    let p = Pipeline::assemble(&e, true);
    assert!(p.layer(3).concurrency_limit_layer().is_some());
    assert!(p.layer(4).rate_limit_layer().is_some());
}
