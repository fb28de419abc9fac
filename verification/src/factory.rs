//! The connection factory: from an address to a handle on a live session.
//!
//! One attempt dials the byte stream, performs the multiplexing handshake over
//! it, starts the task that drives the session, and hands out the handle. The
//! caller does the dialing and the handshake and says how each went.

use crate::endpoint::Endpoint;
use crate::error::{Error, ErrorKind};
use crate::handle::SendRequest;
use crate::readiness::{mirrored, Polled, Readiness};
use crate::settings::{attempt_settings, HandshakeSettings};
use crate::uri::Uri;
use vstd::prelude::*;

verus! {

/// How far one connection attempt has come.
#[derive(Clone, Copy, Debug, PartialEq, Eq, Structural)]
pub enum AttemptPhase {
    /// The byte stream is being dialed.
    Dialing,
    /// The stream is there and the handshake runs over it.
    Handshaking,
    /// The handshake succeeded; the handle has been handed out.
    Established,
    /// Dialing or the handshake failed.
    Failed,
}

/// One connection attempt.
#[derive(Debug, PartialEq, Eq)]
pub struct Attempt {
    pub phase: AttemptPhase,
    /// The handshake settings of this attempt, taken afresh from the
    /// configuration when the attempt began.
    pub settings: HandshakeSettings,
}

/// What happened to an attempt. `S` is the sender of a session.
#[derive(Debug, PartialEq, Eq)]
pub enum AttemptEvent<S> {
    /// The connector opened the byte stream.
    StreamOpened,
    /// The connector failed.
    StreamFailed(String),
    /// The handshake gave a sender and the task that drives the session.
    HandshakeDone(S),
    /// The handshake failed.
    HandshakeFailed(String),
}

/// What is to be done for an attempt.
#[derive(Debug, PartialEq, Eq)]
pub enum AttemptAction<S> {
    /// Dial the address.
    Dial(Uri),
    /// Perform the handshake over the stream, with these settings.
    Handshake(HandshakeSettings),
    /// Start the session's driving task on the configured executor, as work that
    /// nobody waits for, and then end the attempt with this handle.
    Establish(SendRequest<S>),
    /// End the attempt with this failure.
    Fail(Error),
    /// Nothing: the event does not belong to the attempt's phase.
    Ignore,
}

/// The phase after an event, and what is to be done.
pub open spec fn attempt_step<S>(attempt: Attempt, event: AttemptEvent<S>) -> (
    Attempt,
    AttemptAction<S>,
) {
    match (attempt.phase, event) {
        (AttemptPhase::Dialing, AttemptEvent::StreamOpened) => (
            Attempt { phase: AttemptPhase::Handshaking, ..attempt },
            AttemptAction::Handshake(attempt.settings),
        ),
        (AttemptPhase::Dialing, AttemptEvent::StreamFailed(detail)) => (
            Attempt { phase: AttemptPhase::Failed, ..attempt },
            AttemptAction::Fail(Error { kind: ErrorKind::Connect, detail }),
        ),
        (AttemptPhase::Handshaking, AttemptEvent::HandshakeDone(sender)) => (
            Attempt { phase: AttemptPhase::Established, ..attempt },
            AttemptAction::Establish(SendRequest { inner: sender }),
        ),
        (AttemptPhase::Handshaking, AttemptEvent::HandshakeFailed(detail)) => (
            Attempt { phase: AttemptPhase::Failed, ..attempt },
            AttemptAction::Fail(Error { kind: ErrorKind::Handshake, detail }),
        ),
        _ => (attempt, AttemptAction::Ignore),
    }
}

/// What is logged when a session's driving task ends: its failure, filed as a
/// driver failure, or nothing where it ended well.
pub open spec fn driver_report(outcome: Result<(), String>) -> Option<Error> {
    match outcome {
        Ok(_) => None,
        Err(detail) => Some(Error { kind: ErrorKind::Driver, detail }),
    }
}

impl Attempt {
    /// Takes an event and says what is to be done.
    pub fn step<S>(&mut self, event: AttemptEvent<S>) -> (r: AttemptAction<S>)
        ensures
            (*final(self), r) == attempt_step(*old(self), event),
    {
        match (self.phase, event) {
            (AttemptPhase::Dialing, AttemptEvent::StreamOpened) => {
                self.phase = AttemptPhase::Handshaking;
                AttemptAction::Handshake(self.settings)
            },
            (AttemptPhase::Dialing, AttemptEvent::StreamFailed(detail)) => {
                self.phase = AttemptPhase::Failed;
                AttemptAction::Fail(Error { kind: ErrorKind::Connect, detail })
            },
            (AttemptPhase::Handshaking, AttemptEvent::HandshakeDone(sender)) => {
                self.phase = AttemptPhase::Established;
                AttemptAction::Establish(SendRequest::from(sender))
            },
            (AttemptPhase::Handshaking, AttemptEvent::HandshakeFailed(detail)) => {
                self.phase = AttemptPhase::Failed;
                AttemptAction::Fail(Error { kind: ErrorKind::Handshake, detail })
            },
            _ => AttemptAction::Ignore,
        }
    }

    /// Whether the attempt has ended.
    pub fn is_over(&self) -> (r: bool)
        ensures
            r == (self.phase == AttemptPhase::Established || self.phase == AttemptPhase::Failed),
    {
        match self.phase {
            AttemptPhase::Established => true,
            AttemptPhase::Failed => true,
            _ => false,
        }
    }
}

/// The factory of one channel. It holds the configuration, from which each
/// attempt takes its handshake settings, and the settings that the channel was
/// built with.
#[derive(Debug, PartialEq, Eq)]
pub struct MakeSendRequestService {
    pub endpoint: Endpoint,
    pub settings: HandshakeSettings,
}

impl MakeSendRequestService {
    /// The factory for a configuration.
    pub fn new(endpoint: Endpoint, settings: HandshakeSettings) -> (r: MakeSendRequestService)
        ensures
            r.endpoint == endpoint,
            r.settings == settings,
    {
        MakeSendRequestService { endpoint, settings }
    }

    /// The readiness of the factory, which is that of the connector and of
    /// nothing else: no earlier attempt has a say in it. A failure of the
    /// connector is a connect failure.
    pub fn poll_ready(&self, connector: Polled) -> (r: Readiness)
        ensures
            r == mirrored(connector, ErrorKind::Connect),
    {
        Readiness::mirror(connector, ErrorKind::Connect)
    }

    /// Begins an attempt to connect to `target`: the address is to be dialed.
    /// The attempt has the two windows and the keepalive interval of the
    /// configuration, and none of the other handshake options.
    pub fn call<S>(&self, target: Uri) -> (r: (Attempt, AttemptAction<S>))
        ensures
            r.0.phase == AttemptPhase::Dialing,
            r.0.settings@ == attempt_settings(self.endpoint@),
            r.1 == AttemptAction::<S>::Dial(target),
    {
        let settings = HandshakeSettings::per_attempt(&self.endpoint);
        (Attempt { phase: AttemptPhase::Dialing, settings }, AttemptAction::Dial(target))
    }

    /// What is to be logged when a session's driving task has ended. Nothing
    /// else follows from its end: no call and no attempt is told of it.
    pub fn driver_finished(outcome: Result<(), String>) -> (r: Option<Error>)
        ensures
            r == driver_report(outcome),
    {
        match outcome {
            Ok(_) => None,
            Err(detail) => Some(Error { kind: ErrorKind::Driver, detail }),
        }
    }
}

/// An attempt whose dialing fails ends with a connect failure that carries the
/// connector's words, and the factory is as ready afterwards as the connector
/// says: what it answers to a poll does not depend on the attempt.
pub proof fn lemma_failed_dial_is_connect_error<S>(
    attempt: Attempt,
    detail: String,
    connector: Polled,
)
    requires
        attempt.phase == AttemptPhase::Dialing,
    ensures
        attempt_step::<S>(attempt, AttemptEvent::StreamFailed(detail)).1 == AttemptAction::<
            S,
        >::Fail(Error { kind: ErrorKind::Connect, detail }),
        attempt_step::<S>(attempt, AttemptEvent::StreamFailed(detail)).0.phase
            == AttemptPhase::Failed,
        mirrored(connector, ErrorKind::Connect) is Ready <==> connector is Ready,
        mirrored(connector, ErrorKind::Connect) is Pending <==> connector is Pending,
{
}

/// An attempt whose handshake fails, after its stream was opened, ends with a
/// handshake failure that carries the words of the handshake.
pub proof fn lemma_failed_handshake_is_handshake_error<S>(attempt: Attempt, detail: String)
    requires
        attempt.phase == AttemptPhase::Dialing,
    ensures
        ({
            let opened = attempt_step::<S>(attempt, AttemptEvent::StreamOpened);
            let failed = attempt_step::<S>(opened.0, AttemptEvent::HandshakeFailed(detail));
            &&& opened.1 == AttemptAction::<S>::Handshake(attempt.settings)
            &&& failed.1 == AttemptAction::<S>::Fail(Error { kind: ErrorKind::Handshake, detail })
        }),
{
}

/// An attempt ends with a handle only after the stream was opened and the
/// handshake was done, in that order, and the handle holds the sender that the
/// handshake gave.
pub proof fn lemma_handle_needs_dial_and_handshake<S>(attempt: Attempt, event: AttemptEvent<S>)
    ensures
        attempt_step(attempt, event).1 is Establish ==> attempt.phase == AttemptPhase::Handshaking
            && event is HandshakeDone && attempt_step(attempt, event).1 == AttemptAction::Establish(
            SendRequest { inner: event->HandshakeDone_0 },
        ),
        attempt_step(attempt, event).0.phase == AttemptPhase::Handshaking ==> (attempt.phase
            == AttemptPhase::Dialing && event is StreamOpened) || (attempt.phase
            == AttemptPhase::Handshaking && attempt_step(attempt, event).1 is Ignore),
{
}

/// No failure that an attempt ends with is a driver failure, and the end of a
/// driving task yields nothing but a driver failure to log.
pub proof fn lemma_driver_failure_stays_in_the_log<S>(
    attempt: Attempt,
    event: AttemptEvent<S>,
    outcome: Result<(), String>,
)
    ensures
        attempt_step(attempt, event).1 matches AttemptAction::Fail(e) ==> e.kind.reaches_caller(),
        driver_report(outcome) matches Some(e) ==> !e.kind.reaches_caller(),
        driver_report(outcome) is Some <==> outcome is Err,
{
}

/// The attempt after a run of events.
pub open spec fn attempt_after<S>(attempt: Attempt, events: Seq<AttemptEvent<S>>) -> Attempt
    decreases events.len(),
{
    if events.len() == 0 {
        attempt
    } else {
        attempt_step(attempt_after(attempt, events.drop_last()), events.last()).0
    }
}

/// How many events of a run ended the attempt, with a handle or with a
/// failure.
pub open spec fn endings<S>(attempt: Attempt, events: Seq<AttemptEvent<S>>) -> nat
    decreases events.len(),
{
    if events.len() == 0 {
        0
    } else {
        let before = endings(attempt, events.drop_last());
        let action = attempt_step(attempt_after(attempt, events.drop_last()), events.last()).1;
        if action is Establish || action is Fail {
            before + 1
        } else {
            before
        }
    }
}

/// Whatever events come and in whatever order, an attempt ends at most once:
/// one session at most comes of it, so one driving task at most is started for
/// it, and its settings stay what they were when it began.
pub proof fn lemma_attempt_ends_once<S>(attempt: Attempt, events: Seq<AttemptEvent<S>>)
    requires
        attempt.phase == AttemptPhase::Dialing,
    ensures
        endings(attempt, events) <= 1,
        endings(attempt, events) == 1 <==> (attempt_after(attempt, events).phase
            == AttemptPhase::Established || attempt_after(attempt, events).phase
            == AttemptPhase::Failed),
        attempt_after(attempt, events).settings == attempt.settings,
    decreases events.len(),
{
    if events.len() > 0 {
        lemma_attempt_ends_once(attempt, events.drop_last());
    }
}

} // verus!
