//! The parameters of the multiplexing handshake, and the builder operations that
//! apply them.

use crate::endpoint::{Endpoint, EndpointView};
use crate::span::{opt_span, TimeSpan};
use vstd::prelude::*;

verus! {

/// The parameters handed to one handshake.
#[derive(Clone, Copy, Debug, PartialEq, Eq)]
pub struct HandshakeSettings {
    pub initial_stream_window_size: Option<u32>,
    pub initial_connection_window_size: Option<u32>,
    pub keep_alive_interval: Option<TimeSpan>,
    pub keep_alive_timeout: Option<TimeSpan>,
    pub keep_alive_while_idle: Option<bool>,
    pub adaptive_window: Option<bool>,
}

/// The model of [`HandshakeSettings`]. Spans are in nanoseconds.
pub struct HandshakeSettingsView {
    pub initial_stream_window_size: Option<u32>,
    pub initial_connection_window_size: Option<u32>,
    pub keep_alive_interval: Option<nat>,
    pub keep_alive_timeout: Option<nat>,
    pub keep_alive_while_idle: Option<bool>,
    pub adaptive_window: Option<bool>,
}

impl View for HandshakeSettings {
    type V = HandshakeSettingsView;

    open spec fn view(&self) -> HandshakeSettingsView {
        HandshakeSettingsView {
            initial_stream_window_size: self.initial_stream_window_size,
            initial_connection_window_size: self.initial_connection_window_size,
            keep_alive_interval: opt_span(self.keep_alive_interval),
            keep_alive_timeout: opt_span(self.keep_alive_timeout),
            keep_alive_while_idle: self.keep_alive_while_idle,
            adaptive_window: self.adaptive_window,
        }
    }
}

/// One call on the handshake builder.
#[derive(Clone, Copy, Debug, PartialEq, Eq)]
pub enum SettingOp {
    InitialStreamWindowSize(Option<u32>),
    InitialConnectionWindowSize(Option<u32>),
    KeepAliveInterval(Option<TimeSpan>),
    KeepAliveTimeout(TimeSpan),
    KeepAliveWhileIdle(bool),
    AdaptiveWindow(bool),
}

/// The model of a [`SettingOp`].
pub enum SettingOpView {
    InitialStreamWindowSize(Option<u32>),
    InitialConnectionWindowSize(Option<u32>),
    KeepAliveInterval(Option<nat>),
    KeepAliveTimeout(nat),
    KeepAliveWhileIdle(bool),
    AdaptiveWindow(bool),
}

impl View for SettingOp {
    type V = SettingOpView;

    open spec fn view(&self) -> SettingOpView {
        match *self {
            SettingOp::InitialStreamWindowSize(w) => SettingOpView::InitialStreamWindowSize(w),
            SettingOp::InitialConnectionWindowSize(w) => SettingOpView::InitialConnectionWindowSize(
                w,
            ),
            SettingOp::KeepAliveInterval(i) => SettingOpView::KeepAliveInterval(opt_span(i)),
            SettingOp::KeepAliveTimeout(t) => SettingOpView::KeepAliveTimeout(t@),
            SettingOp::KeepAliveWhileIdle(b) => SettingOpView::KeepAliveWhileIdle(b),
            SettingOp::AdaptiveWindow(b) => SettingOpView::AdaptiveWindow(b),
        }
    }
}

/// The settings that a channel is built with: the two windows, the keepalive
/// interval, and the three keepalive and window options.
pub open spec fn initial_settings(e: EndpointView) -> HandshakeSettingsView {
    HandshakeSettingsView {
        initial_stream_window_size: e.init_stream_window_size,
        initial_connection_window_size: e.init_connection_window_size,
        keep_alive_interval: e.http2_keep_alive_interval,
        keep_alive_timeout: e.http2_keep_alive_timeout,
        keep_alive_while_idle: e.http2_keep_alive_while_idle,
        adaptive_window: e.http2_adaptive_window,
    }
}

/// The settings of one connection attempt: the two windows and the keepalive
/// interval. The three other options are left as the transport has them.
pub open spec fn attempt_settings(e: EndpointView) -> HandshakeSettingsView {
    HandshakeSettingsView {
        initial_stream_window_size: e.init_stream_window_size,
        initial_connection_window_size: e.init_connection_window_size,
        keep_alive_interval: e.http2_keep_alive_interval,
        keep_alive_timeout: None,
        keep_alive_while_idle: None,
        adaptive_window: None,
    }
}

/// The builder calls that apply `s`, in order: the windows and the keepalive
/// interval always, each of the other three only where it is set.
pub open spec fn setting_ops(s: HandshakeSettingsView) -> Seq<SettingOpView> {
    seq![
        SettingOpView::InitialStreamWindowSize(s.initial_stream_window_size),
        SettingOpView::InitialConnectionWindowSize(s.initial_connection_window_size),
        SettingOpView::KeepAliveInterval(s.keep_alive_interval),
    ] + match s.keep_alive_timeout {
        Some(t) => seq![SettingOpView::KeepAliveTimeout(t)],
        None => seq![],
    } + match s.keep_alive_while_idle {
        Some(b) => seq![SettingOpView::KeepAliveWhileIdle(b)],
        None => seq![],
    } + match s.adaptive_window {
        Some(b) => seq![SettingOpView::AdaptiveWindow(b)],
        None => seq![],
    }
}

/// The model of a list of builder calls.
pub open spec fn ops_view(ops: Seq<SettingOp>) -> Seq<SettingOpView> {
    ops.map_values(|op: SettingOp| op@)
}

impl HandshakeSettings {
    /// The settings that a channel is built with.
    pub fn initial(endpoint: &Endpoint) -> (r: HandshakeSettings)
        ensures
            r@ == initial_settings(endpoint@),
    {
        HandshakeSettings {
            initial_stream_window_size: endpoint.get_init_stream_window_size(),
            initial_connection_window_size: endpoint.get_init_connection_window_size(),
            keep_alive_interval: endpoint.get_http2_keep_alive_interval(),
            keep_alive_timeout: endpoint.get_http2_keep_alive_timeout(),
            keep_alive_while_idle: endpoint.get_http2_keep_alive_while_idle(),
            adaptive_window: endpoint.get_http2_adaptive_window(),
        }
    }

    /// The settings of one connection attempt, taken afresh from the
    /// configuration.
    pub fn per_attempt(endpoint: &Endpoint) -> (r: HandshakeSettings)
        ensures
            r@ == attempt_settings(endpoint@),
    {
        HandshakeSettings {
            initial_stream_window_size: endpoint.get_init_stream_window_size(),
            initial_connection_window_size: endpoint.get_init_connection_window_size(),
            keep_alive_interval: endpoint.get_http2_keep_alive_interval(),
            keep_alive_timeout: None,
            keep_alive_while_idle: None,
            adaptive_window: None,
        }
    }

    /// The builder calls that apply these settings, in order.
    pub fn operations(&self) -> (r: Vec<SettingOp>)
        ensures
            ops_view(r@) == setting_ops(self@),
    {
        let mut ops: Vec<SettingOp> = Vec::new();
        ops.push(SettingOp::InitialStreamWindowSize(self.initial_stream_window_size));
        ops.push(SettingOp::InitialConnectionWindowSize(self.initial_connection_window_size));
        ops.push(SettingOp::KeepAliveInterval(self.keep_alive_interval));
        if let Some(t) = self.keep_alive_timeout {
            ops.push(SettingOp::KeepAliveTimeout(t));
        }
        if let Some(b) = self.keep_alive_while_idle {
            ops.push(SettingOp::KeepAliveWhileIdle(b));
        }
        if let Some(b) = self.adaptive_window {
            ops.push(SettingOp::AdaptiveWindow(b));
        }
        assert(ops_view(ops@) =~= setting_ops(self@));
        ops
    }
}

/// A window that the configuration sets is the window that every handshake is
/// given: in the settings a channel is built with, in those of each attempt,
/// and as the argument of the first builder call.
pub proof fn lemma_stream_window_round_trip(e: EndpointView, w: u32)
    requires
        e.init_stream_window_size == Some(w),
    ensures
        initial_settings(e).initial_stream_window_size == Some(w),
        attempt_settings(e).initial_stream_window_size == Some(w),
        setting_ops(attempt_settings(e))[0] == SettingOpView::InitialStreamWindowSize(Some(w)),
        setting_ops(initial_settings(e))[0] == SettingOpView::InitialStreamWindowSize(Some(w)),
{
}

/// The same for the window of the connection, which the second builder call
/// sets.
pub proof fn lemma_connection_window_round_trip(e: EndpointView, w: u32)
    requires
        e.init_connection_window_size == Some(w),
    ensures
        initial_settings(e).initial_connection_window_size == Some(w),
        attempt_settings(e).initial_connection_window_size == Some(w),
        setting_ops(attempt_settings(e))[1] == SettingOpView::InitialConnectionWindowSize(
            Some(w),
        ),
        setting_ops(initial_settings(e))[1] == SettingOpView::InitialConnectionWindowSize(
            Some(w),
        ),
{
}

/// An attempt makes exactly three builder calls, whatever the configuration:
/// the three keepalive and window options never reach a handshake through it.
pub proof fn lemma_attempt_makes_three_calls(e: EndpointView)
    ensures
        setting_ops(attempt_settings(e)) =~= seq![
            SettingOpView::InitialStreamWindowSize(e.init_stream_window_size),
            SettingOpView::InitialConnectionWindowSize(e.init_connection_window_size),
            SettingOpView::KeepAliveInterval(e.http2_keep_alive_interval),
        ],
{
}

} // verus!
