use transport_channel::endpoint::{ConfigError, Endpoint};
use transport_channel::settings::{HandshakeSettings, SettingOp};
use transport_channel::span::TimeSpan;
use transport_channel::uri::{InvalidUri, Uri};

fn target() -> Uri {
    Uri::parse("http://example.com:50051").unwrap()
}

fn endpoint() -> Endpoint {
    Endpoint::new(target(), "client/1.0".to_string())
}

#[test]
fn span_from_millis_splits_seconds_and_nanoseconds() {
    let span = TimeSpan::from_millis(1500);
    assert_eq!(span.secs(), 1);
    assert_eq!(span.subsec_nanos(), 500_000_000);
    assert!(!span.is_zero());
}

#[test]
fn span_from_secs_has_no_fraction() {
    let span = TimeSpan::from_secs(7);
    assert_eq!(span.secs(), 7);
    assert_eq!(span.subsec_nanos(), 0);
}

#[test]
fn span_new_refuses_a_full_second_of_nanoseconds() {
    assert_eq!(TimeSpan::new(1, 1_000_000_000), None);
    assert_eq!(TimeSpan::new(1, u32::MAX), None);
    let span = TimeSpan::new(1, 999_999_999).unwrap();
    assert_eq!(span.secs(), 1);
    assert_eq!(span.subsec_nanos(), 999_999_999);
}

#[test]
fn span_zero_is_empty() {
    assert!(TimeSpan::zero().is_zero());
    assert_eq!(TimeSpan::zero(), TimeSpan::from_millis(0));
    assert_eq!(TimeSpan::new(0, 0), Some(TimeSpan::zero()));
}

#[test]
fn span_at_least_orders_by_length() {
    let short = TimeSpan::from_millis(999);
    let long = TimeSpan::from_secs(1);
    assert!(long.at_least(&short));
    assert!(!short.at_least(&long));
    assert!(long.at_least(&long));
    assert!(TimeSpan::new(2, 1).unwrap().at_least(&TimeSpan::new(2, 0).unwrap()));
    assert!(!TimeSpan::new(1, 999_999_999).unwrap().at_least(&TimeSpan::new(2, 0).unwrap()));
}

#[test]
fn span_saturating_sub_borrows_from_the_seconds() {
    let left = TimeSpan::from_millis(2100).saturating_sub(&TimeSpan::from_millis(900));
    assert_eq!(left, TimeSpan::from_millis(1200));
    assert_eq!(left.secs(), 1);
    assert_eq!(left.subsec_nanos(), 200_000_000);
}

#[test]
fn span_saturating_sub_without_borrow() {
    let left = TimeSpan::from_millis(1500).saturating_sub(&TimeSpan::from_millis(300));
    assert_eq!(left, TimeSpan::from_millis(1200));
}

#[test]
fn span_saturating_sub_stops_at_nothing() {
    let short = TimeSpan::from_millis(10);
    let long = TimeSpan::from_secs(1);
    assert_eq!(short.saturating_sub(&long), TimeSpan::zero());
    assert_eq!(long.saturating_sub(&long), TimeSpan::zero());
    assert_eq!(long.saturating_sub(&TimeSpan::zero()), long);
}

#[test]
fn span_from_millis_takes_the_largest_value() {
    let span = TimeSpan::from_millis(u64::MAX);
    assert_eq!(span.secs(), u64::MAX / 1000);
    assert_eq!(span.subsec_nanos(), (u64::MAX % 1000) as u32 * 1_000_000);
}

#[test]
fn uri_parse_finds_the_three_components() {
    let uri = Uri::parse("https://example.com:8443/pkg.Service/Method?x=1").unwrap();
    assert_eq!(uri.scheme.as_deref(), Some("https"));
    assert_eq!(uri.authority.as_deref(), Some("example.com:8443"));
    assert_eq!(uri.path_and_query.as_deref(), Some("/pkg.Service/Method?x=1"));
    assert!(uri.is_absolute());
}

#[test]
fn uri_parse_of_a_path_has_no_scheme_and_no_authority() {
    let uri = Uri::parse("/pkg.Service/Method").unwrap();
    assert_eq!(uri.scheme, None);
    assert_eq!(uri.authority, None);
    assert_eq!(uri.path_and_query.as_deref(), Some("/pkg.Service/Method"));
    assert!(!uri.is_absolute());
}

#[test]
fn uri_parse_refuses_what_is_no_address() {
    assert_eq!(Uri::parse(""), Err(InvalidUri));
    assert_eq!(Uri::parse("http://exa mple.com"), Err(InvalidUri));
}

#[test]
fn uri_from_components_is_the_refusal_without_components() {
    assert_eq!(Uri::from_components(None), Err(InvalidUri));
    let uri = Uri::from_components(Some((Some("http".to_string()), None, None))).unwrap();
    assert_eq!(uri, Uri::from_parts(Some("http".to_string()), None, None));
}

#[test]
fn endpoint_new_sets_nothing_but_target_and_identifier() {
    let e = endpoint();
    assert_eq!(e.get_uri(), &target());
    assert_eq!(e.get_origin(), &None);
    assert_eq!(e.get_user_agent(), "client/1.0");
    assert_eq!(e.get_timeout(), None);
    assert_eq!(e.get_init_stream_window_size(), None);
    assert_eq!(e.get_init_connection_window_size(), None);
    assert_eq!(e.get_http2_keep_alive_interval(), None);
    assert_eq!(e.get_http2_keep_alive_timeout(), None);
    assert_eq!(e.get_http2_keep_alive_while_idle(), None);
    assert_eq!(e.get_http2_adaptive_window(), None);
    assert_eq!(e.get_concurrency_limit(), None);
    assert_eq!(e.get_rate_limit(), None);
    assert_eq!(e.effective_origin(), &target());
}

#[test]
fn endpoint_origin_overrides_the_target() {
    let origin = Uri::parse("https://front.example.org").unwrap();
    let e = endpoint().origin(origin.clone());
    assert_eq!(e.effective_origin(), &origin);
    assert_eq!(e.get_uri(), &target());
}

#[test]
fn endpoint_builders_keep_the_other_settings() {
    let e = endpoint()
        .timeout(TimeSpan::from_secs(3))
        .http2_keep_alive_interval(TimeSpan::from_secs(30))
        .keep_alive_timeout(TimeSpan::from_secs(5))
        .keep_alive_while_idle(true)
        .http2_adaptive_window(false)
        .user_agent("other/2.0".to_string());
    assert_eq!(e.get_timeout(), Some(TimeSpan::from_secs(3)));
    assert_eq!(e.get_http2_keep_alive_interval(), Some(TimeSpan::from_secs(30)));
    assert_eq!(e.get_http2_keep_alive_timeout(), Some(TimeSpan::from_secs(5)));
    assert_eq!(e.get_http2_keep_alive_while_idle(), Some(true));
    assert_eq!(e.get_http2_adaptive_window(), Some(false));
    assert_eq!(e.get_user_agent(), "other/2.0");
    assert_eq!(e.get_uri(), &target());
}

#[test]
fn endpoint_refuses_a_zero_stream_window() {
    assert_eq!(endpoint().initial_stream_window_size(0), Err(ConfigError::ZeroStreamWindow));
    let e = endpoint().initial_stream_window_size(1).unwrap();
    assert_eq!(e.get_init_stream_window_size(), Some(1));
}

#[test]
fn endpoint_refuses_a_zero_connection_window() {
    assert_eq!(
        endpoint().initial_connection_window_size(0),
        Err(ConfigError::ZeroConnectionWindow)
    );
    let e = endpoint().initial_connection_window_size(u32::MAX).unwrap();
    assert_eq!(e.get_init_connection_window_size(), Some(u32::MAX));
}

#[test]
fn endpoint_refuses_a_zero_concurrency_limit() {
    assert_eq!(endpoint().concurrency_limit(0), Err(ConfigError::ZeroConcurrencyLimit));
    let e = endpoint().concurrency_limit(1).unwrap();
    assert_eq!(e.get_concurrency_limit(), Some(1));
}

#[test]
fn endpoint_refuses_a_rate_limit_of_zero_permits() {
    assert_eq!(
        endpoint().rate_limit(0, TimeSpan::from_secs(1)),
        Err(ConfigError::ZeroRatePermits)
    );
    assert_eq!(endpoint().rate_limit(0, TimeSpan::zero()), Err(ConfigError::ZeroRatePermits));
}

#[test]
fn endpoint_refuses_a_rate_limit_over_no_time() {
    assert_eq!(endpoint().rate_limit(5, TimeSpan::zero()), Err(ConfigError::ZeroRatePeriod));
    let e = endpoint().rate_limit(5, TimeSpan::from_millis(1)).unwrap();
    assert_eq!(e.get_rate_limit(), Some((5, TimeSpan::from_millis(1))));
}

#[test]
fn endpoint_clone_is_equal() {
    let e = endpoint()
        .origin(Uri::parse("https://front.example.org").unwrap())
        .concurrency_limit(4)
        .unwrap();
    assert_eq!(e.clone(), e);
}

#[test]
fn stream_window_round_trips_into_every_handshake() {
    let w: u32 = 1_048_576;
    let e = endpoint().initial_stream_window_size(w).unwrap();
    assert_eq!(HandshakeSettings::initial(&e).initial_stream_window_size, Some(w));
    assert_eq!(HandshakeSettings::per_attempt(&e).initial_stream_window_size, Some(w));
    assert_eq!(
        HandshakeSettings::per_attempt(&e).operations()[0],
        SettingOp::InitialStreamWindowSize(Some(w))
    );
}

#[test]
fn connection_window_round_trips_into_every_handshake() {
    let w: u32 = 65_535;
    let e = endpoint().initial_connection_window_size(w).unwrap();
    assert_eq!(HandshakeSettings::initial(&e).initial_connection_window_size, Some(w));
    assert_eq!(HandshakeSettings::per_attempt(&e).initial_connection_window_size, Some(w));
    assert_eq!(
        HandshakeSettings::per_attempt(&e).operations()[1],
        SettingOp::InitialConnectionWindowSize(Some(w))
    );
}

#[test]
fn initial_settings_take_all_six_options() {
    let e = endpoint()
        .initial_stream_window_size(10)
        .unwrap()
        .initial_connection_window_size(20)
        .unwrap()
        .http2_keep_alive_interval(TimeSpan::from_secs(30))
        .keep_alive_timeout(TimeSpan::from_secs(5))
        .keep_alive_while_idle(true)
        .http2_adaptive_window(true);
    let s = HandshakeSettings::initial(&e);
    assert_eq!(
        s,
        HandshakeSettings {
            initial_stream_window_size: Some(10),
            initial_connection_window_size: Some(20),
            keep_alive_interval: Some(TimeSpan::from_secs(30)),
            keep_alive_timeout: Some(TimeSpan::from_secs(5)),
            keep_alive_while_idle: Some(true),
            adaptive_window: Some(true),
        }
    );
    assert_eq!(
        s.operations(),
        vec![
            SettingOp::InitialStreamWindowSize(Some(10)),
            SettingOp::InitialConnectionWindowSize(Some(20)),
            SettingOp::KeepAliveInterval(Some(TimeSpan::from_secs(30))),
            SettingOp::KeepAliveTimeout(TimeSpan::from_secs(5)),
            SettingOp::KeepAliveWhileIdle(true),
            SettingOp::AdaptiveWindow(true),
        ]
    );
}

#[test]
fn attempt_settings_leave_three_options_out() {
    let e = endpoint()
        .initial_stream_window_size(10)
        .unwrap()
        .http2_keep_alive_interval(TimeSpan::from_secs(30))
        .keep_alive_timeout(TimeSpan::from_secs(5))
        .keep_alive_while_idle(true)
        .http2_adaptive_window(true);
    let s = HandshakeSettings::per_attempt(&e);
    assert_eq!(
        s,
        HandshakeSettings {
            initial_stream_window_size: Some(10),
            initial_connection_window_size: None,
            keep_alive_interval: Some(TimeSpan::from_secs(30)),
            keep_alive_timeout: None,
            keep_alive_while_idle: None,
            adaptive_window: None,
        }
    );
    assert_eq!(
        s.operations(),
        vec![
            SettingOp::InitialStreamWindowSize(Some(10)),
            SettingOp::InitialConnectionWindowSize(None),
            SettingOp::KeepAliveInterval(Some(TimeSpan::from_secs(30))),
        ]
    );
}

#[test]
fn operations_of_empty_settings_are_the_three_fixed_calls() {
    let s = HandshakeSettings::initial(&endpoint());
    assert_eq!(
        s.operations(),
        vec![
            SettingOp::InitialStreamWindowSize(None),
            SettingOp::InitialConnectionWindowSize(None),
            SettingOp::KeepAliveInterval(None),
        ]
    );
}

#[test]
fn operations_skip_only_the_options_that_are_not_set() {
    let e = endpoint().keep_alive_while_idle(false);
    assert_eq!(
        HandshakeSettings::initial(&e).operations(),
        vec![
            SettingOp::InitialStreamWindowSize(None),
            SettingOp::InitialConnectionWindowSize(None),
            SettingOp::KeepAliveInterval(None),
            SettingOp::KeepAliveWhileIdle(false),
        ]
    );
}
