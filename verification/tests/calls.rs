use transport_channel::call::{Call, CallAction, CallEvent, CallPhase};
use transport_channel::connection::Connection;
use transport_channel::endpoint::Endpoint;
use transport_channel::error::{Error, ErrorKind};
use transport_channel::factory::{AttemptAction, AttemptEvent, MakeSendRequestService};
use transport_channel::handle::SendRequest;
use transport_channel::pipeline::Layer;
use transport_channel::readiness::{Polled, Readiness};
use transport_channel::reconnect::{Dispatch, LinkAction, LinkEvent};
use transport_channel::request::{Header, RequestHead};
use transport_channel::settings::HandshakeSettings;
use transport_channel::span::TimeSpan;
use transport_channel::uri::Uri;

fn target() -> Uri {
    Uri::parse("http://backend.internal:50051").unwrap()
}

fn endpoint() -> Endpoint {
    Endpoint::new(target(), "client/1.0".to_string())
}

fn request(path: &str) -> RequestHead {
    RequestHead::new(Uri::parse(path).unwrap(), vec![]).unwrap()
}

fn ms(millis: u64) -> TimeSpan {
    TimeSpan::from_millis(millis)
}

fn deadline_failure() -> Error {
    Error::new(ErrorKind::DeadlineExceeded, String::new())
}

#[test]
fn call_begins_waiting_for_admission() {
    let call = Call::begin(Some(ms(100)));
    assert_eq!(call, Call { phase: CallPhase::AwaitingAdmission, budget: Some(ms(100)) });
    assert!(!call.is_done());
    assert!(!call.is_expired(&ms(99)));
    assert!(call.is_expired(&ms(100)));
    assert!(call.is_expired(&ms(101)));
}

#[test]
fn time_left_runs_down_to_nothing() {
    let call = Call::begin(Some(ms(100)));
    assert_eq!(call.time_left(&ms(0)), Some(ms(100)));
    assert_eq!(call.time_left(&ms(40)), Some(ms(60)));
    assert_eq!(call.time_left(&ms(100)), Some(ms(0)));
    assert_eq!(call.time_left(&ms(500)), Some(ms(0)));
    assert_eq!(Call::begin(None).time_left(&ms(40)), None);
}

#[test]
fn call_is_sent_on_once_and_answered_once() {
    let mut call = Call::begin(Some(ms(100)));
    let events = vec![
        CallEvent::TimerFired { elapsed: ms(1) },
        CallEvent::Admitted { elapsed: ms(2) },
        CallEvent::Admitted { elapsed: ms(3) },
        CallEvent::Completed { elapsed: ms(4), outcome: Ok("first") },
        CallEvent::Completed { elapsed: ms(5), outcome: Ok("second") },
        CallEvent::Admitted { elapsed: ms(6) },
        CallEvent::TimerFired { elapsed: ms(200) },
    ];
    let mut actions = Vec::new();
    for event in events {
        actions.push(call.step(event));
    }
    assert_eq!(
        actions,
        vec![
            CallAction::Wait,
            CallAction::Dispatch,
            CallAction::Ignore,
            CallAction::Resolve(Ok("first")),
            CallAction::Ignore,
            CallAction::Ignore,
            CallAction::Ignore,
        ]
    );
}

#[test]
fn call_without_budget_never_expires() {
    let call = Call::begin(None);
    assert!(!call.is_expired(&TimeSpan::from_secs(u64::MAX)));
}

#[test]
fn call_in_time_is_admitted_and_answered() {
    let mut call = Call::begin(Some(ms(100)));
    assert_eq!(call.step(CallEvent::<&str>::Admitted { elapsed: ms(10) }), CallAction::Dispatch);
    assert_eq!(call.phase, CallPhase::InFlight);
    assert_eq!(call.step(CallEvent::<&str>::TimerFired { elapsed: ms(50) }), CallAction::Wait);
    assert_eq!(
        call.step(CallEvent::Completed { elapsed: ms(99), outcome: Ok("response") }),
        CallAction::Resolve(Ok("response"))
    );
    assert!(call.is_done());
}

#[test]
fn admission_after_the_deadline_ends_the_call_with_the_deadline_failure() {
    let mut call = Call::begin(Some(ms(100)));
    assert_eq!(call.step(CallEvent::<&str>::TimerFired { elapsed: ms(60) }), CallAction::Wait);
    assert_eq!(
        call.step(CallEvent::<&str>::Admitted { elapsed: ms(150) }),
        CallAction::Resolve(Err(deadline_failure()))
    );
    assert!(call.is_done());
    assert_eq!(
        call.step(CallEvent::Completed { elapsed: ms(151), outcome: Ok("late") }),
        CallAction::Ignore
    );
    assert!(call.is_done());
}

#[test]
fn admission_at_the_deadline_is_too_late() {
    let mut call = Call::begin(Some(ms(100)));
    assert_eq!(
        call.step(CallEvent::<&str>::Admitted { elapsed: ms(100) }),
        CallAction::Resolve(Err(deadline_failure()))
    );
}

#[test]
fn timer_at_the_deadline_ends_a_waiting_call() {
    let mut call = Call::begin(Some(ms(100)));
    assert_eq!(
        call.step(CallEvent::<&str>::TimerFired { elapsed: ms(100) }),
        CallAction::Resolve(Err(deadline_failure()))
    );
    assert_eq!(call.step(CallEvent::<&str>::Admitted { elapsed: ms(101) }), CallAction::Ignore);
}

#[test]
fn late_answer_is_the_deadline_failure_and_not_a_success() {
    let mut call = Call::begin(Some(ms(100)));
    call.step(CallEvent::<&str>::Admitted { elapsed: ms(1) });
    assert_eq!(
        call.step(CallEvent::Completed { elapsed: ms(100), outcome: Ok("late") }),
        CallAction::Resolve(Err(deadline_failure()))
    );
}

#[test]
fn timer_ends_a_call_in_flight_at_its_deadline() {
    let mut call = Call::begin(Some(ms(100)));
    call.step(CallEvent::<&str>::Admitted { elapsed: ms(1) });
    assert_eq!(
        call.step(CallEvent::<&str>::TimerFired { elapsed: ms(120) }),
        CallAction::Resolve(Err(deadline_failure()))
    );
    assert!(call.is_done());
}

#[test]
fn failure_from_below_comes_out_unchanged() {
    let mut call = Call::begin(None);
    call.step(CallEvent::<&str>::Admitted { elapsed: ms(0) });
    let e = Error::new(ErrorKind::Transport, "stream reset".to_string());
    assert_eq!(
        call.step(CallEvent::<&str>::Completed { elapsed: ms(5), outcome: Err(e.clone()) }),
        CallAction::Resolve(Err(e))
    );
}

#[test]
fn call_ignores_events_of_another_phase() {
    let mut call = Call::begin(Some(ms(100)));
    assert_eq!(
        call.step(CallEvent::Completed { elapsed: ms(1), outcome: Ok("early") }),
        CallAction::Ignore
    );
    assert_eq!(call.phase, CallPhase::AwaitingAdmission);
    call.step(CallEvent::<&str>::Admitted { elapsed: ms(2) });
    assert_eq!(call.step(CallEvent::<&str>::Admitted { elapsed: ms(3) }), CallAction::Ignore);
    assert_eq!(call.phase, CallPhase::InFlight);
}

#[test]
fn abandoned_call_ignores_what_comes_later() {
    let mut call = Call::begin(Some(ms(100)));
    call.step(CallEvent::<&str>::Admitted { elapsed: ms(1) });
    call.abandon();
    assert_eq!(call, Call { phase: CallPhase::Done, budget: Some(ms(100)) });
    assert_eq!(
        call.step(CallEvent::Completed { elapsed: ms(2), outcome: Ok("response") }),
        CallAction::Ignore
    );
}

#[test]
fn load_is_the_same_for_every_connection() {
    let (idle, _) = Connection::lazy::<u32>(endpoint());
    let busy_endpoint = endpoint().concurrency_limit(1).unwrap();
    let (busy, mut conn, _) = Connection::connect::<u32>(busy_endpoint);
    conn.step(LinkEvent::FactoryPolled(Polled::Ready));
    conn.step(LinkEvent::AttemptEstablished(SendRequest::from(7u32)));
    conn.step(LinkEvent::HandlePolled(Polled::Ready));
    let (_, mut call) = busy.call(request("/pkg.Svc/Do"), None);
    call.step(CallEvent::<&str>::Admitted { elapsed: ms(0) });
    assert_eq!(idle.load(), 0);
    assert_eq!(busy.load(), 0);
    assert_eq!(idle.load(), busy.load());
}

#[test]
fn description_is_the_type_name_only() {
    let e = endpoint().origin(Uri::parse("https://secret.example.org").unwrap());
    let (connection, _) = Connection::lazy::<u32>(e);
    assert_eq!(connection.describe(), "Connection");
}

#[test]
fn lazy_connection_is_built_without_any_action() {
    let e = endpoint().initial_stream_window_size(70_000).unwrap();
    let (connection, conn) = Connection::lazy::<u32>(e.clone());
    assert!(conn.is_idle());
    assert!(conn.is_lazy());
    assert!(!conn.is_ready());
    assert_eq!(conn.target(), &target());
    assert_eq!(conn.factory().endpoint, e);
    assert_eq!(conn.factory().settings, HandshakeSettings::initial(&e));
    assert_eq!(connection.settings(), HandshakeSettings::initial(&e));
    assert_eq!(connection.pipeline().len(), 4);
    assert_eq!(connection.pipeline().layer(3), &Layer::Reconnect { target: target(), lazy: true });
}

#[test]
fn eager_connection_polls_the_connector_first() {
    let (connection, conn, action) = Connection::connect::<u32>(endpoint());
    assert_eq!(action, LinkAction::PollFactory);
    assert!(conn.is_idle());
    assert!(!conn.is_lazy());
    assert_eq!(connection.pipeline().layer(3), &Layer::Reconnect { target: target(), lazy: false });
}

#[test]
fn eager_connection_resolves_after_exactly_one_attempt() {
    let (_, mut conn, first) = Connection::connect::<u32>(endpoint());
    let mut actions = vec![first];
    actions.push(conn.step(LinkEvent::FactoryPolled(Polled::Ready)));
    let (mut attempt, dial) = conn.factory().call::<u32>(target());
    assert_eq!(dial, AttemptAction::Dial(target()));
    attempt.step(AttemptEvent::<u32>::StreamOpened);
    let handle = match attempt.step(AttemptEvent::HandshakeDone(11u32)) {
        AttemptAction::Establish(handle) => handle,
        other => panic!("no handle: {:?}", other),
    };
    actions.push(conn.step(LinkEvent::AttemptEstablished(handle)));
    actions.push(conn.step(LinkEvent::HandlePolled(Polled::Ready)));
    assert_eq!(actions.last(), Some(&LinkAction::Yield(Readiness::Ready)));
    let attempts = actions.iter().filter(|a| matches!(a, LinkAction::StartAttempt(_))).count();
    assert_eq!(attempts, 1);
}

#[test]
fn eager_connection_fails_with_the_first_connection_failure() {
    let (_, mut conn, _) = Connection::connect::<u32>(endpoint());
    conn.step(LinkEvent::FactoryPolled(Polled::Ready));
    let (mut attempt, _) = conn.factory().call::<u32>(target());
    let failure = match attempt.step(AttemptEvent::<u32>::StreamFailed("refused".to_string())) {
        AttemptAction::Fail(e) => e,
        other => panic!("no failure: {:?}", other),
    };
    assert_eq!(failure.kind(), ErrorKind::Connect);
    assert_eq!(
        conn.step(LinkEvent::AttemptFailed(failure.clone())),
        LinkAction::Yield(Readiness::Failed(failure))
    );
}

#[test]
fn connection_readiness_is_that_of_its_pipeline() {
    let (connection, _) = Connection::lazy::<u32>(endpoint());
    assert_eq!(connection.poll_ready(Some(Ok(()))), Readiness::Ready);
    assert_eq!(connection.poll_ready(None), Readiness::Pending);
    let e = Error::new(ErrorKind::Handshake, "bad preface".to_string());
    assert_eq!(connection.poll_ready(Some(Err(e.clone()))), Readiness::Failed(e));
}

#[test]
fn connection_call_rewrites_the_request_and_starts_the_clock() {
    let e = endpoint().timeout(TimeSpan::from_secs(2));
    let (connection, _) = Connection::lazy::<u32>(e);
    let head = RequestHead::new(
        Uri::parse("https://other.example.net/pkg.Svc/Do").unwrap(),
        vec![Header { name: "user-agent".to_string(), value: "spoof".to_string() }],
    )
    .unwrap();
    let (outbound, call) = connection.call(head, None);
    assert_eq!(
        outbound.head,
        RequestHead::new(
            Uri::parse("http://backend.internal:50051/pkg.Svc/Do").unwrap(),
            vec![Header { name: "user-agent".to_string(), value: "client/1.0".to_string() }],
        )
        .unwrap()
    );
    assert_eq!(outbound.deadline, Some(TimeSpan::from_secs(2)));
    assert_eq!(
        call,
        Call { phase: CallPhase::AwaitingAdmission, budget: Some(TimeSpan::from_secs(2)) }
    );
}

#[test]
fn second_call_reaches_the_session_only_after_it_is_admitted() {
    let e = endpoint().concurrency_limit(1).unwrap();
    let (connection, mut conn) = Connection::lazy::<u32>(e);
    assert_eq!(connection.pipeline().layer(3), &Layer::ConcurrencyLimit { max: 1 });
    assert!(connection.pipeline().layer(3).concurrency_limit_layer().is_some());

    conn.step(LinkEvent::Poll);
    conn.step(LinkEvent::FactoryPolled(Polled::Ready));
    conn.step(LinkEvent::AttemptEstablished(SendRequest::from(1u32)));
    conn.step(LinkEvent::HandlePolled(Polled::Ready));

    let (_, mut first) = connection.call(request("/pkg.Svc/A"), None);
    let (_, mut second) = connection.call(request("/pkg.Svc/B"), None);
    assert_eq!(first.step(CallEvent::<&str>::Admitted { elapsed: ms(0) }), CallAction::Dispatch);
    assert_eq!(conn.dispatch(), Dispatch::Forward);
    assert_eq!(first.phase, CallPhase::InFlight);
    assert_eq!(second.phase, CallPhase::AwaitingAdmission);
    assert_eq!(second.step(CallEvent::<&str>::TimerFired { elapsed: ms(5) }), CallAction::Wait);
    assert_eq!(second.phase, CallPhase::AwaitingAdmission);

    assert_eq!(
        first.step(CallEvent::Completed { elapsed: ms(20), outcome: Ok("a") }),
        CallAction::Resolve(Ok("a"))
    );
    assert_eq!(second.step(CallEvent::<&str>::Admitted { elapsed: ms(20) }), CallAction::Dispatch);
    assert_eq!(conn.dispatch(), Dispatch::Forward);
    assert_eq!(second.phase, CallPhase::InFlight);
}

#[test]
fn call_in_flight_never_sees_the_failure_of_the_driver() {
    let (connection, mut conn) = Connection::lazy::<u32>(endpoint());
    conn.step(LinkEvent::Poll);
    conn.step(LinkEvent::FactoryPolled(Polled::Ready));
    let (mut attempt, _) = conn.factory().call::<u32>(target());
    attempt.step(AttemptEvent::<u32>::StreamOpened);
    let handle = match attempt.step(AttemptEvent::HandshakeDone(5u32)) {
        AttemptAction::Establish(handle) => handle,
        other => panic!("no handle: {:?}", other),
    };
    conn.step(LinkEvent::AttemptEstablished(handle));
    conn.step(LinkEvent::HandlePolled(Polled::Ready));

    let (_, mut served) = connection.call(request("/pkg.Svc/A"), None);
    let (_, mut broken) = connection.call(request("/pkg.Svc/B"), None);
    served.step(CallEvent::<&str>::Admitted { elapsed: ms(0) });
    broken.step(CallEvent::<&str>::Admitted { elapsed: ms(0) });
    assert_eq!(conn.dispatch(), Dispatch::Forward);
    assert_eq!(conn.dispatch(), Dispatch::Forward);

    let logged = MakeSendRequestService::driver_finished(Err("connection reset".to_string()));
    assert_eq!(logged.map(|e| e.kind()), Some(ErrorKind::Driver));
    assert_eq!(served.phase, CallPhase::InFlight);
    assert_eq!(broken.phase, CallPhase::InFlight);

    let handle = conn.handle().unwrap();
    let answer = handle.resolve(Ok::<&str, String>("a"));
    assert_eq!(
        served.step(CallEvent::Completed { elapsed: ms(3), outcome: answer }),
        CallAction::Resolve(Ok("a"))
    );
    let answer = handle.resolve(Err::<&str, String>("connection reset".to_string()));
    assert_eq!(
        broken.step(CallEvent::Completed { elapsed: ms(3), outcome: answer }),
        CallAction::Resolve(Err(Error::new(ErrorKind::Transport, "connection reset".to_string())))
    );
}
