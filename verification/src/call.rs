//! One call on its way through the channel, seen from its deadline.
//!
//! The clock of a call starts when the call leaves the deadline layer, which is
//! before it waits to be admitted. Every event comes with the time that has
//! passed on that clock.

use crate::error::{result_view, Error, ErrorKind, ErrorView};
use crate::span::{opt_span, TimeSpan};
use vstd::prelude::*;

verus! {

/// Where a call is.
#[derive(Clone, Copy, Debug, PartialEq, Eq, Structural)]
pub enum CallPhase {
    /// The call waits to be admitted by the concurrency and rate limits.
    AwaitingAdmission,
    /// The call was admitted and handed to the reconnection layer.
    InFlight,
    /// The call has ended.
    Done,
}

/// One call.
#[derive(Clone, Copy, Debug, PartialEq, Eq)]
pub struct Call {
    pub phase: CallPhase,
    /// The time that the call has been given, if any.
    pub budget: Option<TimeSpan>,
}

/// What happened to a call. `T` is the response.
#[derive(Debug, PartialEq, Eq)]
pub enum CallEvent<T> {
    /// The admission layers let the call pass.
    Admitted { elapsed: TimeSpan },
    /// The timer of the call went off.
    TimerFired { elapsed: TimeSpan },
    /// The layers below answered the call.
    Completed { elapsed: TimeSpan, outcome: Result<T, Error> },
}

/// What is to be done for a call.
#[derive(Debug, PartialEq, Eq)]
pub enum CallAction<T> {
    /// Keep waiting.
    Wait,
    /// Hand the call to the reconnection layer.
    Dispatch,
    /// End the call with this, and give up whatever was still going on for it.
    Resolve(Result<T, Error>),
    /// Nothing: the event does not belong to the call's phase.
    Ignore,
}

/// The model of a [`CallAction`].
pub enum CallActionView<T> {
    Wait,
    Dispatch,
    Resolve(Result<T, ErrorView>),
    Ignore,
}

impl<T> View for CallAction<T> {
    type V = CallActionView<T>;

    open spec fn view(&self) -> CallActionView<T> {
        match *self {
            CallAction::Wait => CallActionView::Wait,
            CallAction::Dispatch => CallActionView::Dispatch,
            CallAction::Resolve(r) => CallActionView::Resolve(result_view(r)),
            CallAction::Ignore => CallActionView::Ignore,
        }
    }
}

impl<T> CallEvent<T> {
    /// The time on the call's clock at which the event happened.
    pub open spec fn at(self) -> TimeSpan {
        match self {
            CallEvent::Admitted { elapsed } => elapsed,
            CallEvent::TimerFired { elapsed } => elapsed,
            CallEvent::Completed { elapsed, .. } => elapsed,
        }
    }
}

/// Whether a call with this budget is out of time when so much has passed. A
/// call without a budget never is.
pub open spec fn expired(budget: Option<TimeSpan>, elapsed: TimeSpan) -> bool {
    budget matches Some(b) && elapsed@ >= b@
}

/// The time that a call with this budget has left when so much has passed:
/// none where it has no budget, nothing where it is out of time.
pub open spec fn time_left(budget: Option<TimeSpan>, elapsed: TimeSpan) -> Option<nat> {
    match budget {
        Some(b) => Some(
            if elapsed@ >= b@ {
                0nat
            } else {
                (b@ - elapsed@) as nat
            },
        ),
        None => None,
    }
}

/// The failure of a call whose deadline has passed.
pub open spec fn deadline_exceeded() -> ErrorView {
    ErrorView { kind: ErrorKind::DeadlineExceeded, detail: Seq::empty() }
}

/// The call after an event, and what is to be done.
///
/// A call that has ended ignores every event. Any other event that comes when
/// the call is out of time ends it with the deadline failure, whatever the
/// event brings. In time, admission sends the call on, an answer ends it with
/// that answer, and the timer changes nothing.
pub open spec fn call_step<T>(call: Call, event: CallEvent<T>) -> (Call, CallActionView<T>) {
    let done = Call { phase: CallPhase::Done, ..call };
    match (call.phase, event) {
        (CallPhase::Done, _) => (call, CallActionView::Ignore),
        (CallPhase::AwaitingAdmission, CallEvent::Completed { .. }) => (
            call,
            CallActionView::Ignore,
        ),
        (CallPhase::InFlight, CallEvent::Admitted { .. }) => (call, CallActionView::Ignore),
        _ => if expired(call.budget, event.at()) {
            (done, CallActionView::Resolve(Err(deadline_exceeded())))
        } else {
            match event {
                CallEvent::Admitted { .. } => (
                    Call { phase: CallPhase::InFlight, ..call },
                    CallActionView::Dispatch,
                ),
                CallEvent::TimerFired { .. } => (call, CallActionView::Wait),
                CallEvent::Completed { outcome, .. } => (
                    done,
                    CallActionView::Resolve(result_view(outcome)),
                ),
            }
        },
    }
}

impl Call {
    /// A call that has just left the deadline layer with `budget` to finish in,
    /// and now waits to be admitted.
    pub fn begin(budget: Option<TimeSpan>) -> (r: Call)
        ensures
            r == (Call { phase: CallPhase::AwaitingAdmission, budget }),
    {
        Call { phase: CallPhase::AwaitingAdmission, budget }
    }

    /// Whether the call is out of time when `elapsed` has passed on its clock.
    pub fn is_expired(&self, elapsed: &TimeSpan) -> (r: bool)
        ensures
            r == expired(self.budget, *elapsed),
    {
        match &self.budget {
            Some(b) => elapsed.at_least(b),
            None => false,
        }
    }

    /// The time until the call's deadline when `elapsed` has passed on its
    /// clock: the time after which its timer is to go off.
    pub fn time_left(&self, elapsed: &TimeSpan) -> (r: Option<TimeSpan>)
        ensures
            opt_span(r) == time_left(self.budget, *elapsed),
    {
        match &self.budget {
            Some(b) => Some(b.saturating_sub(elapsed)),
            None => None,
        }
    }

    /// Takes an event and says what is to be done.
    pub fn step<T>(&mut self, event: CallEvent<T>) -> (r: CallAction<T>)
        ensures
            (*final(self), r@) == call_step(*old(self), event),
    {
        match (self.phase, event) {
            (CallPhase::Done, _) => CallAction::Ignore,
            (CallPhase::AwaitingAdmission, CallEvent::Completed { .. }) => CallAction::Ignore,
            (CallPhase::InFlight, CallEvent::Admitted { .. }) => CallAction::Ignore,
            (_, CallEvent::Admitted { elapsed }) => {
                if self.is_expired(&elapsed) {
                    self.phase = CallPhase::Done;
                    CallAction::Resolve(Err(Error::new(ErrorKind::DeadlineExceeded, String::new())))
                } else {
                    self.phase = CallPhase::InFlight;
                    CallAction::Dispatch
                }
            },
            (_, CallEvent::TimerFired { elapsed }) => {
                if self.is_expired(&elapsed) {
                    self.phase = CallPhase::Done;
                    CallAction::Resolve(Err(Error::new(ErrorKind::DeadlineExceeded, String::new())))
                } else {
                    CallAction::Wait
                }
            },
            (_, CallEvent::Completed { elapsed, outcome }) => {
                if self.is_expired(&elapsed) {
                    self.phase = CallPhase::Done;
                    CallAction::Resolve(Err(Error::new(ErrorKind::DeadlineExceeded, String::new())))
                } else {
                    self.phase = CallPhase::Done;
                    CallAction::Resolve(outcome)
                }
            },
        }
    }

    /// Gives the call up, as when its caller has lost interest: the call has
    /// ended, and every later event for it is ignored.
    pub fn abandon(&mut self)
        ensures
            *final(self) == (Call { phase: CallPhase::Done, budget: old(self).budget }),
    {
        self.phase = CallPhase::Done;
    }

    /// Whether the call has ended.
    pub fn is_done(&self) -> (r: bool)
        ensures
            r == (self.phase == CallPhase::Done),
    {
        match self.phase {
            CallPhase::Done => true,
            _ => false,
        }
    }
}

/// A call with a deadline that is admitted only when its time is up ends with
/// the deadline failure and is never handed on; and whatever comes for a call at
/// or after its deadline, while it has not ended, ends it with that failure.
pub proof fn lemma_late_event_is_deadline_failure<T>(call: Call, event: CallEvent<T>)
    requires
        call.phase != CallPhase::Done,
        expired(call.budget, event.at()),
        call.phase == CallPhase::AwaitingAdmission ==> !(event is Completed),
        call.phase == CallPhase::InFlight ==> !(event is Admitted),
    ensures
        call_step(call, event).1 == CallActionView::<T>::Resolve(Err(deadline_exceeded())),
        call_step(call, event).0.phase == CallPhase::Done,
{
}

/// A call ends well only with an answer that came while the call was in flight
/// and in time: there is no late success, and none for a call that was never
/// admitted.
pub proof fn lemma_success_is_in_time<T>(call: Call, event: CallEvent<T>)
    requires
        call_step(call, event).1 matches CallActionView::Resolve(Ok(_)),
    ensures
        call.phase == CallPhase::InFlight,
        event matches CallEvent::Completed { outcome: Ok(_), .. },
        !expired(call.budget, event.at()),
        call.budget matches Some(b) ==> event.at()@ < b@,
{
}

/// A call without a deadline never ends with the deadline failure of its own:
/// it is sent on when it is admitted and ends with the answer that comes.
pub proof fn lemma_no_budget_no_deadline_failure<T>(call: Call, event: CallEvent<T>)
    requires
        call.budget is None,
    ensures
        call.phase == CallPhase::AwaitingAdmission && event is Admitted ==> call_step(
            call,
            event,
        ).1 is Dispatch,
        call.phase == CallPhase::InFlight ==> (event matches CallEvent::Completed {
            outcome,
            ..
        } ==> call_step(call, event).1 == CallActionView::Resolve(result_view(outcome))),
        event is TimerFired ==> !(call_step(call, event).1 is Resolve),
{
}

/// A call that has ended stays as it is: after the deadline failure no answer,
/// however good, changes what the caller was told.
pub proof fn lemma_done_is_final<T>(call: Call, event: CallEvent<T>)
    requires
        call.phase == CallPhase::Done,
    ensures
        call_step(call, event) == (call, CallActionView::<T>::Ignore),
{
}

/// A call is handed to the reconnection layer only on admission, only while it
/// waits for that, and only in time. So the wait for admission comes after the
/// start of the clock and before the call reaches the session.
pub proof fn lemma_dispatch_follows_admission<T>(call: Call, event: CallEvent<T>)
    requires
        call_step(call, event).1 is Dispatch,
    ensures
        call.phase == CallPhase::AwaitingAdmission,
        event is Admitted,
        !expired(call.budget, event.at()),
        call_step(call, event).0.phase == CallPhase::InFlight,
{
}

/// Every failure that a call ends with may be handed to a caller, provided the
/// layers below gave none that may not.
pub proof fn lemma_call_failure_reaches_caller<T>(call: Call, event: CallEvent<T>)
    requires
        event matches CallEvent::Completed { outcome: Err(e), .. } ==> e.kind.reaches_caller(),
    ensures
        call_step(call, event).1 matches CallActionView::Resolve(Err(e))
            ==> e.kind.reaches_caller(),
{
}

/// The call after a run of events.
pub open spec fn call_after<T>(call: Call, events: Seq<CallEvent<T>>) -> Call
    decreases events.len(),
{
    if events.len() == 0 {
        call
    } else {
        call_step(call_after(call, events.drop_last()), events.last()).0
    }
}

/// How many events of a run sent the call on to the reconnection layer.
pub open spec fn dispatches<T>(call: Call, events: Seq<CallEvent<T>>) -> nat
    decreases events.len(),
{
    if events.len() == 0 {
        0
    } else {
        let before = dispatches(call, events.drop_last());
        if call_step(call_after(call, events.drop_last()), events.last()).1 is Dispatch {
            before + 1
        } else {
            before
        }
    }
}

/// How many events of a run ended the call.
pub open spec fn resolutions<T>(call: Call, events: Seq<CallEvent<T>>) -> nat
    decreases events.len(),
{
    if events.len() == 0 {
        0
    } else {
        let before = resolutions(call, events.drop_last());
        if call_step(call_after(call, events.drop_last()), events.last()).1 is Resolve {
            before + 1
        } else {
            before
        }
    }
}

/// Whatever events come and in whatever order, a call is sent on at most once
/// and ended at most once: nothing is sent a second time, and no caller is
/// answered twice. A call that was sent on no longer waits for admission, and a
/// call that was ended has ended.
pub proof fn lemma_one_send_one_answer<T>(call: Call, events: Seq<CallEvent<T>>)
    requires
        call.phase == CallPhase::AwaitingAdmission,
    ensures
        dispatches(call, events) <= 1,
        resolutions(call, events) <= 1,
        dispatches(call, events) == 1 ==> call_after(call, events).phase
            != CallPhase::AwaitingAdmission,
        resolutions(call, events) == 1 <==> call_after(call, events).phase == CallPhase::Done,
        call_after(call, events).budget == call.budget,
    decreases events.len(),
{
    if events.len() > 0 {
        lemma_one_send_one_answer(call, events.drop_last());
    }
}

} // verus!
