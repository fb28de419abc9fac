//! The channel as its user sees it: one pipeline, and nothing else.

use crate::call::{call_step, deadline_exceeded, Call, CallActionView, CallEvent, CallPhase};
use crate::endpoint::{Endpoint, EndpointView};
use crate::error::Error;
use crate::factory::MakeSendRequestService;
use crate::pipeline::{
    lemma_deadline_of_call, plan, through, user_agent_name, LayerView, Outbound, OutboundView,
    Pipeline,
};
use crate::readiness::{settled, Readiness};
use crate::reconnect::{link_start, link_step, LinkAction, LinkEvent, Reconnect};
use crate::request::{
    occurrences, occurrences_any_case, HeaderView, RequestHead, RequestHeadView,
};
use crate::settings::{initial_settings, HandshakeSettings, HandshakeSettingsView};
use crate::span::{opt_span, TimeSpan};
use vstd::prelude::*;

verus! {

/// One logical channel. It holds its pipeline and the handshake settings it was
/// built with, and has no state that changes. It has no `Debug` form that shows
/// them: see [`Connection::describe`].
pub struct Connection {
    inner: Pipeline,
    settings: HandshakeSettings,
}

/// The model of a [`Connection`].
pub struct ConnectionView {
    pub pipeline: Seq<LayerView>,
    pub settings: HandshakeSettingsView,
}

impl View for Connection {
    type V = ConnectionView;

    closed spec fn view(&self) -> ConnectionView {
        ConnectionView { pipeline: self.inner@, settings: self.settings@ }
    }
}

/// The load that a channel reports. It is the same for every channel at every
/// time: a channel gives no signal for balancing by load.
pub open spec fn load_of(connection: ConnectionView) -> usize {
    0
}

impl Connection {
    /// Builds a channel and the reconnection layer at the bottom of its
    /// pipeline. The handshake settings are taken from the configuration with
    /// all their options; the pipeline is put together in its fixed order; the
    /// reconnection layer is idle around a factory that holds the
    /// configuration. Nothing is dialed.
    pub fn new<S>(endpoint: Endpoint, is_lazy: bool) -> (r: (Connection, Reconnect<S>))
        ensures
            r.0@.pipeline == plan(endpoint@, is_lazy),
            r.0@.settings == initial_settings(endpoint@),
            r.1@ == link_start::<S>(r.1@.mk_service, r.1@.target, is_lazy),
            r.1@.mk_service.endpoint == endpoint,
            r.1@.mk_service.settings@ == initial_settings(endpoint@),
            r.1@.target@ == endpoint@.uri,
    {
        let settings = HandshakeSettings::initial(&endpoint);
        let inner = Pipeline::assemble(&endpoint, is_lazy);
        let target = endpoint.get_uri().clone();
        let make_service = MakeSendRequestService::new(endpoint, settings);
        let conn = Reconnect::new(make_service, target, is_lazy);
        (Connection { inner, settings }, conn)
    }

    /// Builds a channel that connects when it is first polled for a call.
    /// Building it never fails and starts nothing.
    pub fn lazy<S>(endpoint: Endpoint) -> (r: (Connection, Reconnect<S>))
        ensures
            r.0@.pipeline == plan(endpoint@, true),
            r.0@.settings == initial_settings(endpoint@),
            r.1@ == link_start::<S>(r.1@.mk_service, r.1@.target, true),
            r.1@.mk_service.endpoint == endpoint,
            r.1@.mk_service.settings@ == initial_settings(endpoint@),
            r.1@.target@ == endpoint@.uri,
    {
        Connection::new(endpoint, true)
    }

    /// Builds a channel that connects at once, and polls it for the first time:
    /// the connector is to be polled. The caller goes on with
    /// [`Reconnect::step`] until the poll is answered; the answer ready is the
    /// channel, a failure is the failure of the whole construction.
    pub fn connect<S>(endpoint: Endpoint) -> (r: (Connection, Reconnect<S>, LinkAction))
        ensures
            r.0@.pipeline == plan(endpoint@, false),
            r.0@.settings == initial_settings(endpoint@),
            (r.1@, r.2) == link_step(
                link_start::<S>(r.1@.mk_service, r.1@.target, false),
                LinkEvent::Poll,
            ),
            r.2 == LinkAction::PollFactory,
            r.1@.mk_service.endpoint == endpoint,
            r.1@.mk_service.settings@ == initial_settings(endpoint@),
            r.1@.target@ == endpoint@.uri,
    {
        let (connection, mut conn) = Connection::new(endpoint, false);
        let action = conn.step(LinkEvent::Poll);
        (connection, conn, action)
    }

    /// The readiness of the channel, which is what the poll of its pipeline came
    /// to: nothing yet, ready, or a failure, which comes out as it went in.
    pub fn poll_ready(&self, inner: Option<Result<(), Error>>) -> (r: Readiness)
        ensures
            r == settled(inner),
    {
        match inner {
            None => Readiness::Pending,
            Some(Ok(_)) => Readiness::Ready,
            Some(Err(e)) => Readiness::Failed(e),
        }
    }

    /// Takes a call: passes the request through the layers, the outermost
    /// first, and starts the call's clock. What comes back is the request as it
    /// goes out, and the call, which now waits to be admitted.
    pub fn call(&self, head: RequestHead, deadline: Option<TimeSpan>) -> (r: (Outbound, Call))
        ensures
            r.0@ == through(
                self@.pipeline,
                OutboundView { head: head@, deadline: opt_span(deadline) },
            ),
            r.0@.head.uri.scheme == self@.pipeline[0]->scheme,
            r.0@.head.uri.authority == self@.pipeline[0]->authority,
            r.0@.head.uri.path_and_query == head@.uri.path_and_query,
            occurrences(r.0@.head.headers, user_agent_name()) == 1,
            occurrences_any_case(r.0@.head.headers, user_agent_name()) == 1,
            r.0@.head.headers.last() == (HeaderView {
                name: user_agent_name(),
                value: self@.pipeline[1]->value,
            }),
            deadline is Some ==> r.0@.deadline == opt_span(deadline),
            deadline is None ==> r.0@.deadline == self@.pipeline[2]->limit,
            r.1 == (Call { phase: CallPhase::AwaitingAdmission, budget: r.0.deadline }),
    {
        let outbound = self.inner.prepare(head, deadline);
        let call = Call::begin(outbound.deadline);
        (outbound, call)
    }

    /// The load of the channel: always the same.
    pub fn load(&self) -> (r: usize)
        ensures
            r == load_of(self@),
    {
        0
    }

    /// The name of the type, and nothing of what the channel holds.
    pub fn describe(&self) -> (r: String)
        ensures
            r@ == "Connection"@,
    {
        "Connection".to_owned()
    }

    /// The pipeline.
    pub fn pipeline(&self) -> (r: &Pipeline)
        ensures
            r@ == self@.pipeline,
    {
        &self.inner
    }

    /// The handshake settings that the channel was built with.
    pub fn settings(&self) -> (r: HandshakeSettings)
        ensures
            r@ == self@.settings,
    {
        self.settings
    }
}

/// Where the configuration gives calls a time and the caller names no deadline,
/// a call that is admitted only when that time is up ends with the deadline
/// failure: it is not sent on, and no answer that comes later is handed out.
pub proof fn lemma_configured_deadline_ends_late_call<T>(
    e: EndpointView,
    lazy: bool,
    head: RequestHeadView,
    call: Call,
    admitted: CallEvent<T>,
    later: CallEvent<T>,
)
    requires
        e.timeout is Some,
        call.phase == CallPhase::AwaitingAdmission,
        opt_span(call.budget) == through(
            plan(e, lazy),
            OutboundView { head, deadline: None },
        ).deadline,
        admitted is Admitted,
        admitted.at()@ >= e.timeout->0,
    ensures
        call_step(call, admitted).1 == CallActionView::<T>::Resolve(Err(deadline_exceeded())),
        call_step(call_step(call, admitted).0, later).1 == CallActionView::<T>::Ignore,
{
    lemma_deadline_of_call(e, lazy, OutboundView { head, deadline: None });
}

/// Two channels report the same load, whatever they were built from and
/// whatever has happened to them.
pub proof fn lemma_load_is_constant(a: ConnectionView, b: ConnectionView)
    ensures
        load_of(a) == load_of(b),
{
}

} // verus!
