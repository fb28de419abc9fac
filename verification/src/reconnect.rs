//! The reconnection layer: the innermost layer of the pipeline, which holds the
//! current handle, or none yet, and has the factory make a new one when it is
//! needed.
//!
//! The layer is a state machine. Its driver polls the connector, the running
//! attempt and the sender of the current handle when the machine says so, and
//! reports what each said.

use crate::error::{Error, ErrorKind};
use crate::factory::MakeSendRequestService;
use crate::handle::SendRequest;
use crate::readiness::{mirrored, Polled, Readiness};
use crate::uri::Uri;
use vstd::prelude::*;

verus! {

/// What the layer holds.
#[derive(Debug, PartialEq, Eq)]
pub enum Link<S> {
    /// No handle, and no attempt to make one.
    Idle,
    /// No handle; an attempt to make one is running.
    Connecting,
    /// The current handle.
    Connected(SendRequest<S>),
}

/// What happened. `S` is the sender of a session.
#[derive(Debug, PartialEq, Eq)]
pub enum LinkEvent<S> {
    /// The caller asks whether the channel can take a call.
    Poll,
    /// The connector was polled and said this.
    FactoryPolled(Polled),
    /// The running attempt has not ended yet.
    AttemptPending,
    /// The running attempt ended with a handle.
    AttemptEstablished(SendRequest<S>),
    /// The running attempt ended with a failure.
    AttemptFailed(Error),
    /// The sender of the current handle was polled and said this.
    HandlePolled(Polled),
}

/// What is to be done.
#[derive(Debug, PartialEq, Eq)]
pub enum LinkAction {
    /// Poll the connector and report what it says.
    PollFactory,
    /// Have the factory begin an attempt to this address, and poll the attempt.
    StartAttempt(Uri),
    /// Poll the running attempt.
    PollAttempt,
    /// Poll the sender of the current handle.
    PollHandle,
    /// Answer the caller's poll with this.
    Yield(Readiness),
    /// Nothing: the event answers no question that the layer has asked.
    Unexpected,
}

/// The model of a [`Reconnect`] layer.
pub struct ReconnectView<S> {
    pub mk_service: MakeSendRequestService,
    pub state: Link<S>,
    pub target: Uri,
    /// The failure of the last attempt, kept for the next call.
    pub error: Option<Error>,
    pub has_been_connected: bool,
    pub is_lazy: bool,
    /// How many attempts the layer has started.
    pub attempts: nat,
}

impl<S> ReconnectView<S> {
    /// Whether a call may be handed to the layer: it holds a handle, or a
    /// failure that the call is to be answered with.
    pub open spec fn can_take_call(self) -> bool {
        self.error is Some || self.state is Connected
    }
}

/// The layer as it is made: idle, with no attempt started.
pub open spec fn link_start<S>(
    mk_service: MakeSendRequestService,
    target: Uri,
    is_lazy: bool,
) -> ReconnectView<S> {
    ReconnectView {
        mk_service,
        state: Link::Idle,
        target,
        error: None,
        has_been_connected: false,
        is_lazy,
        attempts: 0,
    }
}

/// The layer after an event, and what is to be done.
///
/// A poll is answered at once where a failure is kept for the next call;
/// otherwise it is passed on to the connector, to the running attempt or to the
/// current handle. When the connector is ready an attempt starts. When an
/// attempt fails, the failure ends the poll if the layer connects eagerly and
/// has never been connected; otherwise it is kept for the next call, and the
/// poll says ready. When the current handle fails, it is dropped and the
/// connector is polled for a new attempt.
pub open spec fn link_step<S>(m: ReconnectView<S>, event: LinkEvent<S>) -> (
    ReconnectView<S>,
    LinkAction,
) {
    match (event, m.state) {
        (LinkEvent::Poll, _) => if m.error is Some {
            (m, LinkAction::Yield(Readiness::Ready))
        } else {
            (
                m,
                match m.state {
                    Link::Idle => LinkAction::PollFactory,
                    Link::Connecting => LinkAction::PollAttempt,
                    Link::Connected(_) => LinkAction::PollHandle,
                },
            )
        },
        (LinkEvent::FactoryPolled(polled), Link::Idle) => match polled {
            Polled::Ready => (
                ReconnectView { state: Link::Connecting, attempts: m.attempts + 1, ..m },
                LinkAction::StartAttempt(m.target),
            ),
            _ => (m, LinkAction::Yield(mirrored(polled, ErrorKind::Connect))),
        },
        (LinkEvent::AttemptPending, Link::Connecting) => (
            m,
            LinkAction::Yield(Readiness::Pending),
        ),
        (LinkEvent::AttemptEstablished(handle), Link::Connecting) => (
            ReconnectView { state: Link::Connected(handle), has_been_connected: true, ..m },
            LinkAction::PollHandle,
        ),
        (LinkEvent::AttemptFailed(e), Link::Connecting) => if m.has_been_connected || m.is_lazy {
            (
                ReconnectView { state: Link::Idle, error: Some(e), ..m },
                LinkAction::Yield(Readiness::Ready),
            )
        } else {
            (ReconnectView { state: Link::Idle, ..m }, LinkAction::Yield(Readiness::Failed(e)))
        },
        (LinkEvent::HandlePolled(polled), Link::Connected(_)) => match polled {
            Polled::Ready => (m, LinkAction::Yield(Readiness::Ready)),
            Polled::Pending => (m, LinkAction::Yield(Readiness::Pending)),
            Polled::Failed(_) => (ReconnectView { state: Link::Idle, ..m }, LinkAction::PollFactory),
        },
        _ => (m, LinkAction::Unexpected),
    }
}

/// What becomes of a call that is handed to the layer.
#[derive(Debug, PartialEq, Eq)]
pub enum Dispatch {
    /// The call fails with the failure that was kept for it.
    Fail(Error),
    /// The call goes to the current handle.
    Forward,
}

/// The layer after a call was handed to it, and what becomes of the call.
pub open spec fn link_dispatch<S>(m: ReconnectView<S>) -> (ReconnectView<S>, Dispatch) {
    match m.error {
        Some(e) => (ReconnectView { error: None, ..m }, Dispatch::Fail(e)),
        None => (m, Dispatch::Forward),
    }
}

/// The reconnection layer of one channel.
pub struct Reconnect<S> {
    mk_service: MakeSendRequestService,
    state: Link<S>,
    target: Uri,
    error: Option<Error>,
    has_been_connected: bool,
    is_lazy: bool,
    attempts: Ghost<nat>,
}

impl<S> View for Reconnect<S> {
    type V = ReconnectView<S>;

    closed spec fn view(&self) -> ReconnectView<S> {
        ReconnectView {
            mk_service: self.mk_service,
            state: self.state,
            target: self.target,
            error: self.error,
            has_been_connected: self.has_been_connected,
            is_lazy: self.is_lazy,
            attempts: self.attempts@,
        }
    }
}

impl<S> Reconnect<S> {
    /// The layer around a factory. It is idle: making it starts no attempt.
    pub fn new(mk_service: MakeSendRequestService, target: Uri, is_lazy: bool) -> (r: Reconnect<S>)
        ensures
            r@ == link_start::<S>(mk_service, target, is_lazy),
    {
        Reconnect {
            mk_service,
            state: Link::Idle,
            target,
            error: None,
            has_been_connected: false,
            is_lazy,
            attempts: Ghost(0),
        }
    }

    /// Takes an event and says what is to be done.
    pub fn step(&mut self, event: LinkEvent<S>) -> (r: LinkAction)
        ensures
            (final(self)@, r) == link_step(old(self)@, event),
    {
        match event {
            LinkEvent::Poll => {
                if self.error.is_some() {
                    LinkAction::Yield(Readiness::Ready)
                } else {
                    match &self.state {
                        Link::Idle => LinkAction::PollFactory,
                        Link::Connecting => LinkAction::PollAttempt,
                        Link::Connected(_) => LinkAction::PollHandle,
                    }
                }
            },
            LinkEvent::FactoryPolled(polled) => {
                match &self.state {
                    Link::Idle => match polled {
                        Polled::Ready => {
                            self.state = Link::Connecting;
                            self.attempts = Ghost(self.attempts@ + 1);
                            LinkAction::StartAttempt(self.target.clone())
                        },
                        _ => LinkAction::Yield(self.mk_service.poll_ready(polled)),
                    },
                    _ => LinkAction::Unexpected,
                }
            },
            LinkEvent::AttemptPending => {
                match &self.state {
                    Link::Connecting => LinkAction::Yield(Readiness::Pending),
                    _ => LinkAction::Unexpected,
                }
            },
            LinkEvent::AttemptEstablished(handle) => {
                match &self.state {
                    Link::Connecting => {
                        self.state = Link::Connected(handle);
                        self.has_been_connected = true;
                        LinkAction::PollHandle
                    },
                    _ => LinkAction::Unexpected,
                }
            },
            LinkEvent::AttemptFailed(e) => {
                match &self.state {
                    Link::Connecting => {
                        self.state = Link::Idle;
                        if self.has_been_connected || self.is_lazy {
                            self.error = Some(e);
                            LinkAction::Yield(Readiness::Ready)
                        } else {
                            LinkAction::Yield(Readiness::Failed(e))
                        }
                    },
                    _ => LinkAction::Unexpected,
                }
            },
            LinkEvent::HandlePolled(polled) => {
                match &self.state {
                    Link::Connected(_) => match polled {
                        Polled::Ready => LinkAction::Yield(Readiness::Ready),
                        Polled::Pending => LinkAction::Yield(Readiness::Pending),
                        Polled::Failed(_) => {
                            self.state = Link::Idle;
                            LinkAction::PollFactory
                        },
                    },
                    _ => LinkAction::Unexpected,
                }
            },
        }
    }

    /// Whether a call may be handed to the layer.
    pub fn is_ready(&self) -> (r: bool)
        ensures
            r == self@.can_take_call(),
    {
        self.error.is_some() || match &self.state {
            Link::Connected(_) => true,
            _ => false,
        }
    }

    /// Hands a call to the layer. The caller has seen the layer ready. A call
    /// that is sent on finds a handle.
    pub fn dispatch(&mut self) -> (r: Dispatch)
        requires
            old(self)@.can_take_call(),
        ensures
            (final(self)@, r) == link_dispatch(old(self)@),
            r is Forward ==> final(self)@.state is Connected,
    {
        match self.error.take() {
            Some(e) => Dispatch::Fail(e),
            None => Dispatch::Forward,
        }
    }

    /// The current handle.
    pub fn handle(&self) -> (r: Option<&SendRequest<S>>)
        ensures
            r is Some <==> self@.state is Connected,
            r matches Some(h) ==> self@.state == Link::Connected(*h),
    {
        match &self.state {
            Link::Connected(h) => Some(h),
            _ => None,
        }
    }

    /// The factory.
    pub fn factory(&self) -> (r: &MakeSendRequestService)
        ensures
            *r == self@.mk_service,
    {
        &self.mk_service
    }

    /// The address that the layer connects to.
    pub fn target(&self) -> (r: &Uri)
        ensures
            *r == self@.target,
    {
        &self.target
    }

    /// Whether the layer holds neither a handle nor a running attempt.
    pub fn is_idle(&self) -> (r: bool)
        ensures
            r == (self@.state is Idle),
    {
        match &self.state {
            Link::Idle => true,
            _ => false,
        }
    }

    /// Whether an attempt is running.
    pub fn is_connecting(&self) -> (r: bool)
        ensures
            r == (self@.state is Connecting),
    {
        match &self.state {
            Link::Connecting => true,
            _ => false,
        }
    }

    /// Whether the first connection is put off until the channel is first
    /// polled for a call.
    pub fn is_lazy(&self) -> (r: bool)
        ensures
            r == self@.is_lazy,
    {
        self.is_lazy
    }
}

/// Whether an event answers what the layer asked for last. After an answer to
/// the caller, the next event is the caller's next poll.
pub open spec fn answers<S>(asked: LinkAction, event: LinkEvent<S>) -> bool {
    match asked {
        LinkAction::PollFactory => event is FactoryPolled,
        LinkAction::StartAttempt(_) => event is AttemptPending || event is AttemptEstablished
            || event is AttemptFailed,
        LinkAction::PollAttempt => event is AttemptPending || event is AttemptEstablished
            || event is AttemptFailed,
        LinkAction::PollHandle => event is HandlePolled,
        LinkAction::Yield(_) => event is Poll,
        LinkAction::Unexpected => false,
    }
}

/// Whether an action ends a wait for readiness: the answer ready, or a failure.
pub open spec fn ends_poll(action: LinkAction) -> bool {
    action matches LinkAction::Yield(r) && !(r is Pending)
}

/// The layer after a run of events, with what it asked for last.
pub open spec fn run<S>(m: ReconnectView<S>, asked: LinkAction, events: Seq<LinkEvent<S>>) -> (
    ReconnectView<S>,
    LinkAction,
)
    decreases events.len(),
{
    if events.len() == 0 {
        (m, asked)
    } else {
        link_step(run(m, asked, events.drop_last()).0, events.last())
    }
}

/// Whether each event of a run answers what the layer asked for just before.
pub open spec fn driven<S>(m: ReconnectView<S>, asked: LinkAction, events: Seq<LinkEvent<S>>) -> bool
    decreases events.len(),
{
    events.len() == 0 || (driven(m, asked, events.drop_last()) && answers(
        run(m, asked, events.drop_last()).1,
        events.last(),
    ))
}

/// Whether no event of a run has ended the wait for readiness.
pub open spec fn waiting<S>(m: ReconnectView<S>, asked: LinkAction, events: Seq<LinkEvent<S>>) -> bool
    decreases events.len(),
{
    events.len() == 0 || (waiting(m, asked, events.drop_last()) && !ends_poll(
        run(m, asked, events).1,
    ))
}

/// Whether no event of a run reports a failed poll of the connector or of a
/// handle.
pub open spec fn polls_succeed<S>(events: Seq<LinkEvent<S>>) -> bool {
    forall|k: int|
        0 <= k < events.len() ==> !((#[trigger] events[k]) matches LinkEvent::FactoryPolled(
            Polled::Failed(_),
        )) && !(events[k] matches LinkEvent::HandlePolled(Polled::Failed(_)))
}

/// What the layer asks of its driver before the first event: nothing but to be
/// polled by the caller.
pub open spec fn at_rest() -> LinkAction {
    LinkAction::Yield(Readiness::Pending)
}

/// What holds of an eager layer while its first wait for readiness goes on and
/// no poll has failed: no attempt before the connector was ready, and one
/// attempt from then on.
spec fn first_wait<S>(m: ReconnectView<S>, asked: LinkAction) -> bool {
    &&& !m.is_lazy
    &&& m.error is None
    &&& match asked {
        LinkAction::PollFactory => m.state is Idle && m.attempts == 0 && !m.has_been_connected,
        LinkAction::StartAttempt(_) => m.state is Connecting && m.attempts == 1
            && !m.has_been_connected,
        LinkAction::PollAttempt => m.state is Connecting && m.attempts == 1
            && !m.has_been_connected,
        LinkAction::PollHandle => m.state is Connected && m.attempts == 1,
        LinkAction::Yield(_) => (m.state is Idle && m.attempts == 0 && !m.has_been_connected)
            || (m.state is Connecting && m.attempts == 1 && !m.has_been_connected) || (
        m.state is Connected && m.attempts == 1),
        LinkAction::Unexpected => false,
    }
}

proof fn lemma_first_wait<S>(
    mk_service: MakeSendRequestService,
    target: Uri,
    events: Seq<LinkEvent<S>>,
)
    requires
        driven(link_start::<S>(mk_service, target, false), at_rest(), events),
        waiting(link_start::<S>(mk_service, target, false), at_rest(), events),
        polls_succeed(events),
    ensures
        first_wait(
            run(link_start::<S>(mk_service, target, false), at_rest(), events).0,
            run(link_start::<S>(mk_service, target, false), at_rest(), events).1,
        ),
    decreases events.len(),
{
    if events.len() > 0 {
        let before = events.drop_last();
        assert forall|k: int| 0 <= k < before.len() implies !((#[trigger] before[k])
            matches LinkEvent::FactoryPolled(Polled::Failed(_))) && !(before[k]
            matches LinkEvent::HandlePolled(Polled::Failed(_))) by {
            assert(before[k] == events[k]);
        }
        lemma_first_wait(mk_service, target, before);
        assert(events.last() == events[events.len() - 1]);
    }
}

/// What the layer has asked for fits what it holds: it asks the connector only
/// when it is idle, an attempt only while one is running, and a handle only
/// when it holds one.
pub open spec fn asked_fits<S>(m: ReconnectView<S>, asked: LinkAction) -> bool {
    match asked {
        LinkAction::PollFactory => m.state is Idle,
        LinkAction::StartAttempt(_) => m.state is Connecting,
        LinkAction::PollAttempt => m.state is Connecting,
        LinkAction::PollHandle => m.state is Connected,
        LinkAction::Yield(_) => true,
        LinkAction::Unexpected => false,
    }
}

/// A driver that only ever answers what the layer asked for is never told that
/// its event was unexpected, and what the layer asks for always fits what it
/// holds.
pub proof fn lemma_driven_run_is_expected<S>(
    mk_service: MakeSendRequestService,
    target: Uri,
    is_lazy: bool,
    events: Seq<LinkEvent<S>>,
)
    requires
        driven(link_start::<S>(mk_service, target, is_lazy), at_rest(), events),
    ensures
        asked_fits(
            run(link_start::<S>(mk_service, target, is_lazy), at_rest(), events).0,
            run(link_start::<S>(mk_service, target, is_lazy), at_rest(), events).1,
        ),
        !(run(link_start::<S>(mk_service, target, is_lazy), at_rest(), events).1 is Unexpected),
    decreases events.len(),
{
    if events.len() > 0 {
        lemma_driven_run_is_expected(mk_service, target, is_lazy, events.drop_last());
    }
}

/// Making the layer starts nothing, whether it is lazy or eager, and the first
/// event that a driver may send is the caller's poll: no attempt is started, and
/// nothing is dialed, before the channel is first polled for a call.
pub proof fn lemma_nothing_before_first_poll<S>(
    mk_service: MakeSendRequestService,
    target: Uri,
    is_lazy: bool,
    events: Seq<LinkEvent<S>>,
)
    requires
        driven(link_start::<S>(mk_service, target, is_lazy), at_rest(), events),
    ensures
        link_start::<S>(mk_service, target, is_lazy).attempts == 0,
        link_start::<S>(mk_service, target, is_lazy).state is Idle,
        events.len() > 0 ==> events[0] is Poll,
        run(link_start::<S>(mk_service, target, is_lazy), at_rest(), events).0.attempts > 0
            ==> events.len() >= 2,
    decreases events.len(),
{
    let start = link_start::<S>(mk_service, target, is_lazy);
    if events.len() > 0 {
        let before = events.drop_last();
        lemma_nothing_before_first_poll(mk_service, target, is_lazy, before);
        if before.len() > 0 {
            assert(before[0] == events[0]);
            if before.len() == 1 {
                assert(before.drop_last().len() == 0);
                assert(run(start, at_rest(), before.drop_last()) == (start, at_rest()));
            }
        } else {
            assert(events.last() == events[0]);
        }
    }
}

/// An eager layer makes exactly one attempt before its first wait for readiness
/// ends, be it with ready or with the failure of that attempt, as long as no
/// poll of the connector or of the new handle fails.
pub proof fn lemma_eager_connects_once<S>(
    mk_service: MakeSendRequestService,
    target: Uri,
    events: Seq<LinkEvent<S>>,
)
    requires
        events.len() > 0,
        driven(link_start::<S>(mk_service, target, false), at_rest(), events),
        waiting(link_start::<S>(mk_service, target, false), at_rest(), events.drop_last()),
        polls_succeed(events),
        ends_poll(run(link_start::<S>(mk_service, target, false), at_rest(), events).1),
    ensures
        run(link_start::<S>(mk_service, target, false), at_rest(), events).0.attempts == 1,
        run(link_start::<S>(mk_service, target, false), at_rest(), events).1 matches
            LinkAction::Yield(Readiness::Failed(e)) ==> events.last() == LinkEvent::<
            S,
        >::AttemptFailed(e),
{
    let before = events.drop_last();
    assert forall|k: int| 0 <= k < before.len() implies !((#[trigger] before[k])
        matches LinkEvent::FactoryPolled(Polled::Failed(_))) && !(before[k]
        matches LinkEvent::HandlePolled(Polled::Failed(_))) by {
        assert(before[k] == events[k]);
    }
    lemma_first_wait(mk_service, target, before);
    assert(events.last() == events[events.len() - 1]);
}

/// Whenever the layer answers a poll with ready, a call may be handed to it:
/// it holds a handle, or the failure that the call is to end with. And a call
/// that is handed to such a layer and sent on finds the handle there.
pub proof fn lemma_ready_takes_call<S>(m: ReconnectView<S>, event: LinkEvent<S>)
    ensures
        link_step(m, event).1 == LinkAction::Yield(Readiness::Ready) ==> link_step(
            m,
            event,
        ).0.can_take_call(),
        m.can_take_call() && link_dispatch(m).1 is Forward ==> link_dispatch(m).0.state
            is Connected,
{
}

/// A lazy layer never fails a poll because an attempt failed: it says ready and
/// keeps the failure, and the next call ends with exactly that failure.
pub proof fn lemma_lazy_failure_goes_to_call<S>(m: ReconnectView<S>, e: Error)
    requires
        m.is_lazy,
        m.state is Connecting,
        m.error is None,
    ensures
        link_step(m, LinkEvent::AttemptFailed(e)).1 == LinkAction::Yield(Readiness::Ready),
        link_dispatch(link_step(m, LinkEvent::AttemptFailed(e)).0).1 == Dispatch::Fail(e),
        link_dispatch(link_step(m, LinkEvent::AttemptFailed(e)).0).0.error is None,
        link_dispatch(link_step(m, LinkEvent::AttemptFailed(e)).0).0.state is Idle,
{
}

/// A failed attempt leaves nothing behind that bears on the next one. Once its
/// failure has been handed on, to the poll or to the next call, the layer is idle
/// again; the next poll goes to the connector, and what follows depends on the
/// connector's answer alone: ready starts a new attempt to the same address,
/// anything else is passed up as it is.
pub proof fn lemma_failed_attempt_leaves_no_trace<S>(
    m: ReconnectView<S>,
    e: Error,
    connector: Polled,
)
    requires
        m.state is Connecting,
        m.error is None,
    ensures
        ({
            let failed = link_step(m, LinkEvent::AttemptFailed(e)).0;
            let handed_on = if failed.error is Some {
                link_dispatch(failed).0
            } else {
                failed
            };
            let polled = link_step(handed_on, LinkEvent::Poll);
            let answered = link_step(polled.0, LinkEvent::FactoryPolled(connector));
            &&& handed_on.state is Idle
            &&& handed_on.error is None
            &&& polled.1 == LinkAction::PollFactory
            &&& connector is Ready ==> answered.1 == LinkAction::StartAttempt(m.target)
            &&& !(connector is Ready) ==> answered.1 == LinkAction::Yield(
                mirrored(connector, ErrorKind::Connect),
            )
        }),
{
}

/// The layer holds a handle only because an attempt ended with it, or because
/// it held that handle before: a handle that was dropped does not come back,
/// and no event but the end of an attempt brings a new one.
pub proof fn lemma_handle_comes_from_attempt<S>(m: ReconnectView<S>, event: LinkEvent<S>)
    ensures
        link_step(m, event).0.state matches Link::Connected(h) ==> m.state == Link::Connected(h)
            || (m.state is Connecting && event == LinkEvent::AttemptEstablished(h)),
        link_dispatch(m).0.state == m.state,
{
}

/// An attempt starts only when the layer is idle and the connector says ready,
/// and each start is counted; no other event changes the count.
pub proof fn lemma_attempts_are_counted<S>(m: ReconnectView<S>, event: LinkEvent<S>)
    ensures
        link_step(m, event).1 is StartAttempt <==> (m.state is Idle
            && event == LinkEvent::<S>::FactoryPolled(Polled::Ready)),
        link_step(m, event).0.attempts == m.attempts + (if link_step(m, event).1 is StartAttempt {
            1nat
        } else {
            0nat
        }),
        link_step(m, event).1 matches LinkAction::StartAttempt(to) ==> to == m.target,
{
}

} // verus!
