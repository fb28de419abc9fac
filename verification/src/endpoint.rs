//! The configuration of one channel.

use crate::span::{opt_span, TimeSpan};
use crate::uri::{opt_uri, Uri, UriView};
use vstd::prelude::*;

verus! {

/// Why a setting was refused.
#[derive(Clone, Copy, Debug, PartialEq, Eq, Structural)]
pub enum ConfigError {
    /// A stream window of zero.
    ZeroStreamWindow,
    /// A connection window of zero.
    ZeroConnectionWindow,
    /// A concurrency limit of zero.
    ZeroConcurrencyLimit,
    /// A rate limit of zero permits.
    ZeroRatePermits,
    /// A rate limit over an empty period.
    ZeroRatePeriod,
}

/// The model of an [`Endpoint`]. Spans are in nanoseconds.
pub struct EndpointView {
    pub uri: UriView,
    pub origin: Option<UriView>,
    pub user_agent: Seq<char>,
    pub timeout: Option<nat>,
    pub init_stream_window_size: Option<u32>,
    pub init_connection_window_size: Option<u32>,
    pub http2_keep_alive_interval: Option<nat>,
    pub http2_keep_alive_timeout: Option<nat>,
    pub http2_keep_alive_while_idle: Option<bool>,
    pub http2_adaptive_window: Option<bool>,
    pub concurrency_limit: Option<usize>,
    pub rate_limit: Option<(u64, nat)>,
}

impl EndpointView {
    /// What every configuration satisfies: windows and limits, where set, are
    /// positive.
    pub open spec fn valid(self) -> bool {
        &&& self.init_stream_window_size matches Some(w) ==> w > 0
        &&& self.init_connection_window_size matches Some(w) ==> w > 0
        &&& self.concurrency_limit matches Some(n) ==> n > 0
        &&& self.rate_limit matches Some(r) ==> r.0 > 0 && r.1 > 0
    }

    /// The origin that requests are rewritten to: the override where there is
    /// one, else the target address.
    pub open spec fn effective_origin(self) -> UriView {
        match self.origin {
            Some(o) => o,
            None => self.uri,
        }
    }
}

/// The model of an optional rate limit.
pub open spec fn opt_rate(o: Option<(u64, TimeSpan)>) -> Option<(u64, nat)> {
    match o {
        Some(r) => Some((r.0, r.1@)),
        None => None,
    }
}

/// What a channel is told about its peer and about itself. A value of this type
/// never changes; the builder methods return a new one.
#[derive(Debug, PartialEq, Eq)]
pub struct Endpoint {
    uri: Uri,
    origin: Option<Uri>,
    user_agent: String,
    timeout: Option<TimeSpan>,
    init_stream_window_size: Option<u32>,
    init_connection_window_size: Option<u32>,
    http2_keep_alive_interval: Option<TimeSpan>,
    http2_keep_alive_timeout: Option<TimeSpan>,
    http2_keep_alive_while_idle: Option<bool>,
    http2_adaptive_window: Option<bool>,
    concurrency_limit: Option<usize>,
    rate_limit: Option<(u64, TimeSpan)>,
}

impl View for Endpoint {
    type V = EndpointView;

    closed spec fn view(&self) -> EndpointView {
        EndpointView {
            uri: self.uri@,
            origin: opt_uri(self.origin),
            user_agent: self.user_agent@,
            timeout: opt_span(self.timeout),
            init_stream_window_size: self.init_stream_window_size,
            init_connection_window_size: self.init_connection_window_size,
            http2_keep_alive_interval: opt_span(self.http2_keep_alive_interval),
            http2_keep_alive_timeout: opt_span(self.http2_keep_alive_timeout),
            http2_keep_alive_while_idle: self.http2_keep_alive_while_idle,
            http2_adaptive_window: self.http2_adaptive_window,
            concurrency_limit: self.concurrency_limit,
            rate_limit: opt_rate(self.rate_limit),
        }
    }
}

impl Clone for Endpoint {
    fn clone(&self) -> (r: Self)
        ensures
            r == *self,
    {
        proof {
            use_type_invariant(self);
        }
        let origin = match &self.origin {
            Some(o) => Some(o.clone()),
            None => None,
        };
        Endpoint {
            uri: self.uri.clone(),
            origin,
            user_agent: self.user_agent.clone(),
            timeout: self.timeout,
            init_stream_window_size: self.init_stream_window_size,
            init_connection_window_size: self.init_connection_window_size,
            http2_keep_alive_interval: self.http2_keep_alive_interval,
            http2_keep_alive_timeout: self.http2_keep_alive_timeout,
            http2_keep_alive_while_idle: self.http2_keep_alive_while_idle,
            http2_adaptive_window: self.http2_adaptive_window,
            concurrency_limit: self.concurrency_limit,
            rate_limit: self.rate_limit,
        }
    }
}

impl Endpoint {
    /// What holds of every configuration: its model is valid.
    #[verifier::type_invariant]
    pub open spec fn inv(self) -> bool {
        self@.valid()
    }

    /// The configuration for `uri` that identifies the client as `user_agent`
    /// and sets nothing else.
    pub fn new(uri: Uri, user_agent: String) -> (r: Endpoint)
        ensures
            r@ == (EndpointView {
                uri: uri@,
                origin: None,
                user_agent: user_agent@,
                timeout: None,
                init_stream_window_size: None,
                init_connection_window_size: None,
                http2_keep_alive_interval: None,
                http2_keep_alive_timeout: None,
                http2_keep_alive_while_idle: None,
                http2_adaptive_window: None,
                concurrency_limit: None,
                rate_limit: None,
            }),
    {
        Endpoint {
            uri,
            origin: None,
            user_agent,
            timeout: None,
            init_stream_window_size: None,
            init_connection_window_size: None,
            http2_keep_alive_interval: None,
            http2_keep_alive_timeout: None,
            http2_keep_alive_while_idle: None,
            http2_adaptive_window: None,
            concurrency_limit: None,
            rate_limit: None,
        }
    }

    /// Rewrites requests to `origin` in place of the target address.
    pub fn origin(self, origin: Uri) -> (r: Endpoint)
        ensures
            r@ == (EndpointView { origin: Some(origin@), ..self@ }),
    {
        proof {
            use_type_invariant(&self);
        }
        Endpoint { origin: Some(origin), ..self }
    }

    /// Identifies the client as `user_agent`.
    pub fn user_agent(self, user_agent: String) -> (r: Endpoint)
        ensures
            r@ == (EndpointView { user_agent: user_agent@, ..self@ }),
    {
        proof {
            use_type_invariant(&self);
        }
        Endpoint { user_agent, ..self }
    }

    /// Gives each call `timeout` to finish, unless the caller names a deadline.
    pub fn timeout(self, timeout: TimeSpan) -> (r: Endpoint)
        ensures
            r@ == (EndpointView { timeout: Some(timeout@), ..self@ }),
    {
        proof {
            use_type_invariant(&self);
        }
        Endpoint { timeout: Some(timeout), ..self }
    }

    /// Sets the flow-control window of each stream, which must be positive.
    pub fn initial_stream_window_size(self, size: u32) -> (r: Result<Endpoint, ConfigError>)
        ensures
            size == 0 ==> r == Err::<Endpoint, ConfigError>(ConfigError::ZeroStreamWindow),
            size > 0 ==> r is Ok && r->Ok_0@ == (EndpointView {
                init_stream_window_size: Some(size),
                ..self@
            }),
    {
        proof {
            use_type_invariant(&self);
        }
        if size == 0 {
            Err(ConfigError::ZeroStreamWindow)
        } else {
            Ok(Endpoint { init_stream_window_size: Some(size), ..self })
        }
    }

    /// Sets the flow-control window of the connection, which must be positive.
    pub fn initial_connection_window_size(self, size: u32) -> (r: Result<Endpoint, ConfigError>)
        ensures
            size == 0 ==> r == Err::<Endpoint, ConfigError>(ConfigError::ZeroConnectionWindow),
            size > 0 ==> r is Ok && r->Ok_0@ == (EndpointView {
                init_connection_window_size: Some(size),
                ..self@
            }),
    {
        proof {
            use_type_invariant(&self);
        }
        if size == 0 {
            Err(ConfigError::ZeroConnectionWindow)
        } else {
            Ok(Endpoint { init_connection_window_size: Some(size), ..self })
        }
    }

    /// Sends a keepalive probe every `interval`.
    pub fn http2_keep_alive_interval(self, interval: TimeSpan) -> (r: Endpoint)
        ensures
            r@ == (EndpointView { http2_keep_alive_interval: Some(interval@), ..self@ }),
    {
        proof {
            use_type_invariant(&self);
        }
        Endpoint { http2_keep_alive_interval: Some(interval), ..self }
    }

    /// Waits `timeout` for the answer to a keepalive probe.
    pub fn keep_alive_timeout(self, timeout: TimeSpan) -> (r: Endpoint)
        ensures
            r@ == (EndpointView { http2_keep_alive_timeout: Some(timeout@), ..self@ }),
    {
        proof {
            use_type_invariant(&self);
        }
        Endpoint { http2_keep_alive_timeout: Some(timeout), ..self }
    }

    /// Says whether keepalive probes are sent while no call is open.
    pub fn keep_alive_while_idle(self, enabled: bool) -> (r: Endpoint)
        ensures
            r@ == (EndpointView { http2_keep_alive_while_idle: Some(enabled), ..self@ }),
    {
        proof {
            use_type_invariant(&self);
        }
        Endpoint { http2_keep_alive_while_idle: Some(enabled), ..self }
    }

    /// Says whether the flow-control windows adapt to the connection.
    pub fn http2_adaptive_window(self, enabled: bool) -> (r: Endpoint)
        ensures
            r@ == (EndpointView { http2_adaptive_window: Some(enabled), ..self@ }),
    {
        proof {
            use_type_invariant(&self);
        }
        Endpoint { http2_adaptive_window: Some(enabled), ..self }
    }

    /// Admits at most `limit` calls at a time; `limit` must be positive.
    pub fn concurrency_limit(self, limit: usize) -> (r: Result<Endpoint, ConfigError>)
        ensures
            limit == 0 ==> r == Err::<Endpoint, ConfigError>(ConfigError::ZeroConcurrencyLimit),
            limit > 0 ==> r is Ok && r->Ok_0@ == (EndpointView {
                concurrency_limit: Some(limit),
                ..self@
            }),
    {
        proof {
            use_type_invariant(&self);
        }
        if limit == 0 {
            Err(ConfigError::ZeroConcurrencyLimit)
        } else {
            Ok(Endpoint { concurrency_limit: Some(limit), ..self })
        }
    }

    /// Admits at most `permits` calls in each period of length `per`; both must
    /// be positive. Zero permits are reported before an empty period.
    pub fn rate_limit(self, permits: u64, per: TimeSpan) -> (r: Result<Endpoint, ConfigError>)
        ensures
            permits == 0 ==> r == Err::<Endpoint, ConfigError>(ConfigError::ZeroRatePermits),
            permits > 0 && per@ == 0 ==> r == Err::<Endpoint, ConfigError>(
                ConfigError::ZeroRatePeriod,
            ),
            permits > 0 && per@ > 0 ==> r is Ok && r->Ok_0@ == (EndpointView {
                rate_limit: Some((permits, per@)),
                ..self@
            }),
    {
        proof {
            use_type_invariant(&self);
        }
        if permits == 0 {
            Err(ConfigError::ZeroRatePermits)
        } else if per.is_zero() {
            Err(ConfigError::ZeroRatePeriod)
        } else {
            Ok(Endpoint { rate_limit: Some((permits, per)), ..self })
        }
    }

    /// The target address.
    pub fn get_uri(&self) -> (r: &Uri)
        ensures
            r@ == self@.uri,
    {
        &self.uri
    }

    /// The origin override.
    pub fn get_origin(&self) -> (r: &Option<Uri>)
        ensures
            opt_uri(*r) == self@.origin,
    {
        &self.origin
    }

    /// How the client identifies itself.
    pub fn get_user_agent(&self) -> (r: &String)
        ensures
            r@ == self@.user_agent,
    {
        &self.user_agent
    }

    /// The time that a call is given.
    pub fn get_timeout(&self) -> (r: Option<TimeSpan>)
        ensures
            opt_span(r) == self@.timeout,
    {
        self.timeout
    }

    /// The flow-control window of each stream.
    pub fn get_init_stream_window_size(&self) -> (r: Option<u32>)
        ensures
            r == self@.init_stream_window_size,
            r matches Some(w) ==> w > 0,
    {
        proof {
            use_type_invariant(self);
        }
        self.init_stream_window_size
    }

    /// The flow-control window of the connection.
    pub fn get_init_connection_window_size(&self) -> (r: Option<u32>)
        ensures
            r == self@.init_connection_window_size,
            r matches Some(w) ==> w > 0,
    {
        proof {
            use_type_invariant(self);
        }
        self.init_connection_window_size
    }

    /// The time between keepalive probes.
    pub fn get_http2_keep_alive_interval(&self) -> (r: Option<TimeSpan>)
        ensures
            opt_span(r) == self@.http2_keep_alive_interval,
    {
        self.http2_keep_alive_interval
    }

    /// The time to wait for the answer to a keepalive probe.
    pub fn get_http2_keep_alive_timeout(&self) -> (r: Option<TimeSpan>)
        ensures
            opt_span(r) == self@.http2_keep_alive_timeout,
    {
        self.http2_keep_alive_timeout
    }

    /// Whether keepalive probes are sent while no call is open.
    pub fn get_http2_keep_alive_while_idle(&self) -> (r: Option<bool>)
        ensures
            r == self@.http2_keep_alive_while_idle,
    {
        self.http2_keep_alive_while_idle
    }

    /// Whether the flow-control windows adapt.
    pub fn get_http2_adaptive_window(&self) -> (r: Option<bool>)
        ensures
            r == self@.http2_adaptive_window,
    {
        self.http2_adaptive_window
    }

    /// The most calls admitted at a time.
    pub fn get_concurrency_limit(&self) -> (r: Option<usize>)
        ensures
            r == self@.concurrency_limit,
            r matches Some(n) ==> n > 0,
    {
        proof {
            use_type_invariant(self);
        }
        self.concurrency_limit
    }

    /// The permits of each period, and the period.
    pub fn get_rate_limit(&self) -> (r: Option<(u64, TimeSpan)>)
        ensures
            opt_rate(r) == self@.rate_limit,
            r matches Some(p) ==> p.0 > 0 && p.1@ > 0,
    {
        proof {
            use_type_invariant(self);
        }
        self.rate_limit
    }

    /// The origin that requests are rewritten to.
    pub fn effective_origin(&self) -> (r: &Uri)
        ensures
            r@ == self@.effective_origin(),
    {
        match &self.origin {
            Some(o) => o,
            None => &self.uri,
        }
    }
}

} // verus!
