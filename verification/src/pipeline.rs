//! The middleware pipeline of a channel: which layers it has, in which order,
//! and what they do to a request on its way out.

use crate::endpoint::{Endpoint, EndpointView};
use crate::request::{
    is_upper, lemma_with_header_normal, lemma_with_header_once, lower_case, named, normal,
    occurrences, occurrences_any_case, with_header, with_origin, HeaderView, RequestHead,
    RequestHeadView,
};
use crate::span::{opt_span, TimeSpan};
use crate::uri::{clone_text, opt_text, Uri, UriView};
use vstd::prelude::*;

verus! {

/// One layer of the pipeline, with what it was configured with.
#[derive(Debug, PartialEq, Eq)]
pub enum Layer {
    /// Rewrites the scheme and authority of each request.
    AddOrigin { scheme: Option<String>, authority: Option<String> },
    /// Sets the header that identifies the client.
    UserAgent { value: String },
    /// Starts the clock of each call's deadline.
    Timeout { limit: Option<TimeSpan> },
    /// Admits at most `max` calls at a time.
    ConcurrencyLimit { max: usize },
    /// Admits at most `permits` calls in each period of length `per`.
    RateLimit { permits: u64, per: TimeSpan },
    /// Holds the current session to `target`, and makes a new one when there is
    /// none.
    Reconnect { target: Uri, lazy: bool },
}

/// The model of a [`Layer`]. Spans are in nanoseconds.
pub enum LayerView {
    AddOrigin { scheme: Option<Seq<char>>, authority: Option<Seq<char>> },
    UserAgent { value: Seq<char> },
    Timeout { limit: Option<nat> },
    ConcurrencyLimit { max: usize },
    RateLimit { permits: u64, per: nat },
    Reconnect { target: UriView, lazy: bool },
}

impl View for Layer {
    type V = LayerView;

    open spec fn view(&self) -> LayerView {
        match *self {
            Layer::AddOrigin { scheme, authority } => LayerView::AddOrigin {
                scheme: opt_text(scheme),
                authority: opt_text(authority),
            },
            Layer::UserAgent { value } => LayerView::UserAgent { value: value@ },
            Layer::Timeout { limit } => LayerView::Timeout { limit: opt_span(limit) },
            Layer::ConcurrencyLimit { max } => LayerView::ConcurrencyLimit { max },
            Layer::RateLimit { permits, per } => LayerView::RateLimit { permits, per: per@ },
            Layer::Reconnect { target, lazy } => LayerView::Reconnect { target: target@, lazy },
        }
    }
}

impl LayerView {
    /// The place of a layer in the pipeline, counted from the outside.
    pub open spec fn rank(self) -> int {
        match self {
            LayerView::AddOrigin { .. } => 0,
            LayerView::UserAgent { .. } => 1,
            LayerView::Timeout { .. } => 2,
            LayerView::ConcurrencyLimit { .. } => 3,
            LayerView::RateLimit { .. } => 4,
            LayerView::Reconnect { .. } => 5,
        }
    }
}

/// The name of the header that identifies the client.
pub open spec fn user_agent_name() -> Seq<char> {
    "user-agent"@
}

/// The name of the identification header holds no upper case letter.
pub proof fn lemma_user_agent_name_is_lower_case()
    ensures
        lower_case(user_agent_name()),
{
    reveal_strlit("user-agent");
    let name = user_agent_name();
    assert forall|i: int| 0 <= i < name.len() implies !is_upper(#[trigger] name[i]) by {
        assert(name.len() == 10);
        assert(name[0] == 'u' && name[1] == 's' && name[2] == 'e' && name[3] == 'r' && name[4]
            == '-' && name[5] == 'a' && name[6] == 'g' && name[7] == 'e' && name[8] == 'n'
            && name[9] == 't');
    }
}

/// A request on its way through the pipeline: its head, and the time it has
/// been given, if any.
#[derive(Debug, PartialEq, Eq)]
pub struct Outbound {
    pub head: RequestHead,
    pub deadline: Option<TimeSpan>,
}

/// The model of an [`Outbound`] request.
pub struct OutboundView {
    pub head: RequestHeadView,
    pub deadline: Option<nat>,
}

impl View for Outbound {
    type V = OutboundView;

    open spec fn view(&self) -> OutboundView {
        OutboundView { head: self.head@, deadline: opt_span(self.deadline) }
    }
}

/// What one layer does to a request that passes through it. The origin layer
/// rewrites the target; the identification layer sets its header; the deadline
/// layer gives the call the configured time unless the caller named a deadline.
/// The admission layers and the reconnection layer leave the request as it is.
pub open spec fn layer_effect(layer: LayerView, call: OutboundView) -> OutboundView {
    match layer {
        LayerView::AddOrigin { scheme, authority } => OutboundView {
            head: with_origin(call.head, scheme, authority),
            deadline: call.deadline,
        },
        LayerView::UserAgent { value } => OutboundView {
            head: RequestHeadView {
                uri: call.head.uri,
                headers: with_header(call.head.headers, user_agent_name(), value),
            },
            deadline: call.deadline,
        },
        LayerView::Timeout { limit } => OutboundView {
            head: call.head,
            deadline: match call.deadline {
                Some(d) => Some(d),
                None => limit,
            },
        },
        _ => call,
    }
}

/// What the layers do to a request, the first layer first.
pub open spec fn through(layers: Seq<LayerView>, call: OutboundView) -> OutboundView
    decreases layers.len(),
{
    if layers.len() == 0 {
        call
    } else {
        layer_effect(layers.last(), through(layers.drop_last(), call))
    }
}

/// The three layers that every pipeline starts with.
pub open spec fn header_layers(e: EndpointView) -> Seq<LayerView> {
    seq![
        LayerView::AddOrigin {
            scheme: e.effective_origin().scheme,
            authority: e.effective_origin().authority,
        },
        LayerView::UserAgent { value: e.user_agent },
        LayerView::Timeout { limit: e.timeout },
    ]
}

/// The header layers and the admission layers that the configuration asks for.
pub open spec fn outer_layers(e: EndpointView) -> Seq<LayerView> {
    let with_concurrency = match e.concurrency_limit {
        Some(max) => header_layers(e).push(LayerView::ConcurrencyLimit { max }),
        None => header_layers(e),
    };
    match e.rate_limit {
        Some(rate) => with_concurrency.push(LayerView::RateLimit { permits: rate.0, per: rate.1 }),
        None => with_concurrency,
    }
}

/// The pipeline of a channel, from the outside in: origin, identification,
/// deadline, the concurrency limit and the rate limit where they are
/// configured, and the reconnection layer around the connection factory.
pub open spec fn plan(e: EndpointView, lazy: bool) -> Seq<LayerView> {
    outer_layers(e).push(LayerView::Reconnect { target: e.uri, lazy })
}

/// What holds of every pipeline: it starts with origin, identification and
/// deadline, ends with the reconnection layer, has its layers in the order of
/// their ranks, and limits only to positive numbers.
pub open spec fn well_formed(layers: Seq<LayerView>) -> bool {
    &&& 4 <= layers.len() <= 6
    &&& layers[0] is AddOrigin
    &&& layers[1] is UserAgent
    &&& layers[2] is Timeout
    &&& layers.last() is Reconnect
    &&& forall|i: int, j: int|
        0 <= i < j < layers.len() ==> (#[trigger] layers[i]).rank() < (#[trigger] layers[j]).rank()
    &&& forall|i: int|
        0 <= i < layers.len() ==> ((#[trigger] layers[i]) matches LayerView::ConcurrencyLimit {
            max,
        } ==> max > 0)
    &&& forall|i: int|
        0 <= i < layers.len() ==> ((#[trigger] layers[i]) matches LayerView::RateLimit {
            permits,
            per,
        } ==> permits > 0 && per > 0)
}

/// tower's layer that limits how many calls are in flight at a time.
#[verifier::external_type_specification]
#[verifier::external_body]
pub struct ExConcurrencyLimitLayer(tower::limit::ConcurrencyLimitLayer);

/// tower's layer that limits how many calls are admitted in a period.
#[verifier::external_type_specification]
#[verifier::external_body]
pub struct ExRateLimitLayer(tower::limit::RateLimitLayer);

/// The number of calls that tower's `ConcurrencyLimitLayer` was made for: what
/// `ConcurrencyLimitLayer::new` stores in the layer.
pub uninterp spec fn concurrency_limit_of(layer: tower::limit::ConcurrencyLimitLayer) -> usize;

/// The permits and the period, in nanoseconds, that tower's `RateLimitLayer`
/// was made for: what `RateLimitLayer::new` stores in the layer.
pub uninterp spec fn rate_limit_of(layer: tower::limit::RateLimitLayer) -> (u64, nat);

/// Makes tower's `ConcurrencyLimitLayer` with `ConcurrencyLimitLayer::new`, which
/// takes any number and stores it. Trusted: that the layer is made for `max`.
#[verifier::external_body]
fn tower_concurrency_limit(max: usize) -> (r: tower::limit::ConcurrencyLimitLayer)
    ensures
        concurrency_limit_of(r) == max,
{
    tower::limit::ConcurrencyLimitLayer::new(max)
}

/// Makes tower's `RateLimitLayer` with `RateLimitLayer::new`, for `permits` calls
/// in each period of `secs` seconds and `nanos` nanoseconds. tower panics on
/// zero permits and on an empty period, and `Duration::new` on a carry out of
/// the nanoseconds that overflows the seconds: the conditions leave all three
/// out. Trusted: that the layer is made for these permits and this period,
/// which tower stores as they are given.
#[verifier::external_body]
fn tower_rate_limit(permits: u64, secs: u64, nanos: u32) -> (r: tower::limit::RateLimitLayer)
    requires
        permits > 0,
        nanos < 1_000_000_000,
        secs > 0 || nanos > 0,
    ensures
        rate_limit_of(r) == (permits, (secs * 1_000_000_000 + nanos) as nat),
{
    tower::limit::RateLimitLayer::new(permits, std::time::Duration::new(secs, nanos))
}

/// The model of a list of layers.
pub open spec fn layers_view(layers: Seq<Layer>) -> Seq<LayerView> {
    layers.map_values(|l: Layer| l@)
}

/// The layers of one channel, from the outside in.
#[derive(Debug, PartialEq, Eq)]
pub struct Pipeline {
    layers: Vec<Layer>,
}

impl View for Pipeline {
    type V = Seq<LayerView>;

    closed spec fn view(&self) -> Seq<LayerView> {
        layers_view(self.layers@)
    }
}

impl Layer {
    /// Passes a request through this layer.
    pub fn on_request(&self, call: Outbound) -> (r: Outbound)
        ensures
            r@ == layer_effect(self@, call@),
    {
        match self {
            Layer::AddOrigin { scheme, authority } => {
                let Outbound { head, deadline } = call;
                Outbound { head: head.rewrite_origin(scheme, authority), deadline }
            },
            Layer::UserAgent { value } => {
                let Outbound { head, deadline } = call;
                let name = "user-agent".to_owned();
                proof {
                    lemma_user_agent_name_is_lower_case();
                }
                Outbound { head: head.put_header(&name, value), deadline }
            },
            Layer::Timeout { limit } => {
                let Outbound { head, deadline } = call;
                let deadline = match deadline {
                    Some(d) => Some(d),
                    None => *limit,
                };
                Outbound { head, deadline }
            },
            _ => call,
        }
    }

    /// tower's layer for a concurrency limit, made for the number of this layer;
    /// `None` for every other layer.
    pub fn concurrency_limit_layer(&self) -> (r: Option<tower::limit::ConcurrencyLimitLayer>)
        ensures
            r is Some <==> self@ is ConcurrencyLimit,
            r matches Some(l) ==> self@ == (LayerView::ConcurrencyLimit {
                max: concurrency_limit_of(l),
            }),
    {
        match self {
            Layer::ConcurrencyLimit { max } => Some(tower_concurrency_limit(*max)),
            _ => None,
        }
    }

    /// tower's layer for a rate limit of positive permits over a period that is
    /// not empty, made for the permits and the period of this layer; `None` for
    /// any other rate limit and for every other layer.
    pub fn rate_limit_layer(&self) -> (r: Option<tower::limit::RateLimitLayer>)
        ensures
            r is Some <==> (self@ matches LayerView::RateLimit { permits, per } && permits > 0
                && per > 0),
            r matches Some(l) ==> self@ == (LayerView::RateLimit {
                permits: rate_limit_of(l).0,
                per: rate_limit_of(l).1,
            }),
    {
        match self {
            Layer::RateLimit { permits, per } => {
                if *permits > 0 && !per.is_zero() {
                    Some(tower_rate_limit(*permits, per.secs(), per.subsec_nanos()))
                } else {
                    None
                }
            },
            _ => None,
        }
    }
}

impl Pipeline {
    /// What holds of every pipeline.
    #[verifier::type_invariant]
    pub open spec fn inv(self) -> bool {
        well_formed(self@)
    }

    /// Puts the layers of a channel together.
    pub fn assemble(endpoint: &Endpoint, lazy: bool) -> (r: Pipeline)
        ensures
            r@ == plan(endpoint@, lazy),
    {
        let origin = endpoint.effective_origin();
        let mut layers: Vec<Layer> = Vec::new();
        layers.push(
            Layer::AddOrigin {
                scheme: clone_text(&origin.scheme),
                authority: clone_text(&origin.authority),
            },
        );
        layers.push(Layer::UserAgent { value: endpoint.get_user_agent().clone() });
        layers.push(Layer::Timeout { limit: endpoint.get_timeout() });
        assert(layers_view(layers@) =~= header_layers(endpoint@));
        let ghost before = layers@;
        if let Some(max) = endpoint.get_concurrency_limit() {
            layers.push(Layer::ConcurrencyLimit { max });
            assert(layers_view(layers@) =~= layers_view(before).push(
                LayerView::ConcurrencyLimit { max },
            ));
        }
        let ghost before = layers@;
        if let Some((permits, per)) = endpoint.get_rate_limit() {
            layers.push(Layer::RateLimit { permits, per });
            assert(layers_view(layers@) =~= layers_view(before).push(
                LayerView::RateLimit { permits, per: per@ },
            ));
        }
        assert(layers_view(layers@) == outer_layers(endpoint@));
        let ghost before = layers@;
        layers.push(Layer::Reconnect { target: endpoint.get_uri().clone(), lazy });
        proof {
            assert(layers_view(layers@) =~= layers_view(before).push(
                LayerView::Reconnect { target: endpoint@.uri, lazy },
            ));
            use_type_invariant(endpoint);
            lemma_plan_well_formed(endpoint@, lazy);
        }
        Pipeline { layers }
    }

    /// The number of layers.
    pub fn len(&self) -> (r: usize)
        ensures
            r == self@.len(),
            4 <= r <= 6,
    {
        proof {
            use_type_invariant(self);
        }
        self.layers.len()
    }

    /// The layer at place `index`, counted from the outside.
    pub fn layer(&self, index: usize) -> (r: &Layer)
        requires
            index < self@.len(),
        ensures
            r@ == self@[index as int],
    {
        &self.layers[index]
    }

    /// The layers, from the outside in.
    pub fn layers(&self) -> (r: &Vec<Layer>)
        ensures
            layers_view(r@) == self@,
            well_formed(self@),
    {
        proof {
            use_type_invariant(self);
        }
        &self.layers
    }

    /// Passes a request through every layer, the outermost first. What comes
    /// out names the scheme and authority of the origin layer, carries the
    /// identification header exactly once, and has the caller's deadline or
    /// else the time of the deadline layer.
    pub fn prepare(&self, head: RequestHead, deadline: Option<TimeSpan>) -> (r: Outbound)
        ensures
            r@ == through(self@, OutboundView { head: head@, deadline: opt_span(deadline) }),
            r@.head.uri.scheme == self@[0]->scheme,
            r@.head.uri.authority == self@[0]->authority,
            r@.head.uri.path_and_query == head@.uri.path_and_query,
            r@.head.headers == with_header(head@.headers, user_agent_name(), self@[1]->value),
            occurrences(r@.head.headers, user_agent_name()) == 1,
            occurrences_any_case(r@.head.headers, user_agent_name()) == 1,
            normal(r@.head.headers),
            deadline is Some ==> r@.deadline == opt_span(deadline),
            deadline is None ==> r@.deadline == self@[2]->limit,
    {
        let ghost start = OutboundView { head: head@, deadline: opt_span(deadline) };
        proof {
            use_type_invariant(&head);
        }
        let mut call = Outbound { head, deadline };
        let mut i: usize = 0;
        while i < self.layers.len()
            invariant
                i <= self.layers.len(),
                call@ == through(self@.take(i as int), start),
            decreases self.layers.len() - i,
        {
            proof {
                assert(self@.take(i as int + 1).drop_last() =~= self@.take(i as int));
                assert(self@.take(i as int + 1).last() == self.layers@[i as int]@);
            }
            call = self.layers[i].on_request(call);
            i += 1;
        }
        proof {
            assert(self@.take(i as int) =~= self@);
            use_type_invariant(self);
            lemma_through_well_formed(self@, start);
            lemma_user_agent_name_is_lower_case();
            lemma_with_header_normal(start.head.headers, user_agent_name(), self@[1]->value);
        }
        call
    }
}

/// Whether a layer leaves every request as it is.
pub open spec fn inert(layer: LayerView) -> bool {
    layer is ConcurrencyLimit || layer is RateLimit || layer is Reconnect
}

/// Layers that leave every request as it is can be left out at the end.
proof fn lemma_inert_tail(layers: Seq<LayerView>, from: int, call: OutboundView)
    requires
        0 <= from <= layers.len(),
        forall|i: int| from <= i < layers.len() ==> inert(#[trigger] layers[i]),
    ensures
        through(layers, call) == through(layers.take(from), call),
    decreases layers.len() - from,
{
    if from == layers.len() {
        assert(layers.take(from) =~= layers);
    } else {
        let shorter = layers.drop_last();
        assert(inert(layers[layers.len() - 1]));
        assert forall|i: int| from <= i < shorter.len() implies inert(#[trigger] shorter[i]) by {
            assert(shorter[i] == layers[i]);
        }
        lemma_inert_tail(shorter, from, call);
        assert(shorter.take(from) =~= layers.take(from));
    }
}

/// What any pipeline does to a request is what its first three layers do, in
/// their order: the origin layer, the identification layer, the deadline layer.
pub proof fn lemma_through_well_formed(layers: Seq<LayerView>, call: OutboundView)
    requires
        well_formed(layers),
    ensures
        through(layers, call) == layer_effect(
            layers[2],
            layer_effect(layers[1], layer_effect(layers[0], call)),
        ),
        through(layers, call).head.uri.scheme == layers[0]->scheme,
        through(layers, call).head.uri.authority == layers[0]->authority,
        through(layers, call).head.uri.path_and_query == call.head.uri.path_and_query,
        through(layers, call).head.headers == with_header(
            call.head.headers,
            user_agent_name(),
            layers[1]->value,
        ),
        occurrences(through(layers, call).head.headers, user_agent_name()) == 1,
        through(layers, call).deadline == (match call.deadline {
            Some(d) => Some(d),
            None => layers[2]->limit,
        }),
{
    assert forall|i: int| 3 <= i < layers.len() implies inert(#[trigger] layers[i]) by {
        assert(layers[2].rank() < layers[i].rank());
    }
    lemma_inert_tail(layers, 3, call);
    let none = Seq::<LayerView>::empty();
    assert(layers.take(3) =~= none.push(layers[0]).push(layers[1]).push(layers[2]));
    lemma_through_push(none, layers[0], call);
    lemma_through_push(none.push(layers[0]), layers[1], call);
    lemma_through_push(none.push(layers[0]).push(layers[1]), layers[2], call);
    lemma_with_header_once(call.head.headers, user_agent_name(), layers[1]->value);
}

/// The pipeline of a valid configuration is well formed.
pub proof fn lemma_plan_well_formed(e: EndpointView, lazy: bool)
    requires
        e.valid(),
    ensures
        well_formed(plan(e, lazy)),
{
}

/// The layers stand in one fixed order: origin, identification, deadline,
/// concurrency limit, rate limit, reconnection. Whatever the configuration, a
/// layer that stands further out has the lower rank, so no kind of layer occurs
/// twice and none overtakes another.
pub proof fn lemma_plan_order(e: EndpointView, lazy: bool, i: int, j: int)
    requires
        0 <= i < j < plan(e, lazy).len(),
    ensures
        plan(e, lazy)[i].rank() < plan(e, lazy)[j].rank(),
{
}

/// The three header layers and the reconnection layer are always there, with
/// what the configuration says; each admission layer is there exactly where its
/// limit is configured, and with that limit.
pub proof fn lemma_plan_contents(e: EndpointView, lazy: bool)
    ensures
        plan(e, lazy)[0] == (LayerView::AddOrigin {
            scheme: e.effective_origin().scheme,
            authority: e.effective_origin().authority,
        }),
        plan(e, lazy)[1] == (LayerView::UserAgent { value: e.user_agent }),
        plan(e, lazy)[2] == (LayerView::Timeout { limit: e.timeout }),
        plan(e, lazy).last() == (LayerView::Reconnect { target: e.uri, lazy }),
        plan(e, lazy).len() == 4 + (if e.concurrency_limit is Some {
            1int
        } else {
            0int
        }) + (if e.rate_limit is Some {
            1int
        } else {
            0int
        }),
        e.concurrency_limit matches Some(max) ==> plan(e, lazy)[3] == (
        LayerView::ConcurrencyLimit { max }),
        e.rate_limit matches Some(rate) ==> plan(e, lazy)[plan(e, lazy).len() - 2] == (
        LayerView::RateLimit { permits: rate.0, per: rate.1 }),
        forall|i: int|
            0 <= i < plan(e, lazy).len() && (#[trigger] plan(e, lazy)[i]) is ConcurrencyLimit
                ==> e.concurrency_limit is Some,
        forall|i: int|
            0 <= i < plan(e, lazy).len() && (#[trigger] plan(e, lazy)[i]) is RateLimit
                ==> e.rate_limit is Some,
{
}

/// Passing through one more layer is passing through the others and then
/// through that one.
pub proof fn lemma_through_push(layers: Seq<LayerView>, layer: LayerView, call: OutboundView)
    ensures
        through(layers.push(layer), call) == layer_effect(layer, through(layers, call)),
{
    assert(layers.push(layer).drop_last() =~= layers);
}

/// What the whole pipeline does to a request: the target goes to the
/// configured origin and keeps its path, the identification header is set to
/// the configured value, and the call has the caller's deadline or else the
/// configured time.
pub proof fn lemma_through_plan(e: EndpointView, lazy: bool, call: OutboundView)
    ensures
        through(plan(e, lazy), call) == (OutboundView {
            head: RequestHeadView {
                uri: UriView {
                    scheme: e.effective_origin().scheme,
                    authority: e.effective_origin().authority,
                    path_and_query: call.head.uri.path_and_query,
                },
                headers: with_header(call.head.headers, user_agent_name(), e.user_agent),
            },
            deadline: match call.deadline {
                Some(d) => Some(d),
                None => e.timeout,
            },
        }),
{
    let origin = LayerView::AddOrigin {
        scheme: e.effective_origin().scheme,
        authority: e.effective_origin().authority,
    };
    let agent = LayerView::UserAgent { value: e.user_agent };
    let timeout = LayerView::Timeout { limit: e.timeout };
    let none = Seq::<LayerView>::empty();
    assert(header_layers(e) =~= none.push(origin).push(agent).push(timeout));
    lemma_through_push(none, origin, call);
    lemma_through_push(none.push(origin), agent, call);
    lemma_through_push(none.push(origin).push(agent), timeout, call);
    let after_headers = through(header_layers(e), call);
    let with_concurrency = match e.concurrency_limit {
        Some(max) => header_layers(e).push(LayerView::ConcurrencyLimit { max }),
        None => header_layers(e),
    };
    if let Some(max) = e.concurrency_limit {
        lemma_through_push(header_layers(e), LayerView::ConcurrencyLimit { max }, call);
    }
    assert(through(with_concurrency, call) == after_headers);
    if let Some(rate) = e.rate_limit {
        lemma_through_push(
            with_concurrency,
            LayerView::RateLimit { permits: rate.0, per: rate.1 },
            call,
        );
    }
    assert(through(outer_layers(e), call) == after_headers);
    lemma_through_push(outer_layers(e), LayerView::Reconnect { target: e.uri, lazy }, call);
}

/// Whatever scheme and authority a request names, what leaves the pipeline
/// names those of the configured origin, which is the target address where no
/// origin is set. The path and its query are the request's own.
pub proof fn lemma_authority_is_origin(e: EndpointView, lazy: bool, call: OutboundView)
    ensures
        through(plan(e, lazy), call).head.uri.authority == e.effective_origin().authority,
        through(plan(e, lazy), call).head.uri.scheme == e.effective_origin().scheme,
        through(plan(e, lazy), call).head.uri.path_and_query == call.head.uri.path_and_query,
        e.origin is None ==> through(plan(e, lazy), call).head.uri.authority == e.uri.authority,
        e.origin matches Some(o) ==> through(plan(e, lazy), call).head.uri.authority
            == o.authority,
{
    lemma_through_plan(e, lazy, call);
}

/// Whatever headers a request carries, what leaves the pipeline carries the
/// identification header exactly once, with the configured value.
pub proof fn lemma_identified_once(e: EndpointView, lazy: bool, call: OutboundView)
    ensures
        occurrences(through(plan(e, lazy), call).head.headers, user_agent_name()) == 1,
        through(plan(e, lazy), call).head.headers.filter(named(user_agent_name())) =~= seq![
            HeaderView { name: user_agent_name(), value: e.user_agent },
        ],
{
    lemma_through_plan(e, lazy, call);
    lemma_with_header_once(call.head.headers, user_agent_name(), e.user_agent);
}

/// In whatever case the identification header is looked for, what leaves the
/// pipeline carries it exactly once, provided that no header name of the
/// request holds an upper case letter, which holds of every request head.
pub proof fn lemma_identified_once_in_any_case(e: EndpointView, lazy: bool, call: OutboundView)
    requires
        normal(call.head.headers),
    ensures
        occurrences_any_case(through(plan(e, lazy), call).head.headers, user_agent_name()) == 1,
        normal(through(plan(e, lazy), call).head.headers),
{
    lemma_through_plan(e, lazy, call);
    lemma_user_agent_name_is_lower_case();
    lemma_with_header_normal(call.head.headers, user_agent_name(), e.user_agent);
}

/// A call has the time that its caller named; where the caller named none, it
/// has the configured time; where neither is there, it has no deadline.
pub proof fn lemma_deadline_of_call(e: EndpointView, lazy: bool, call: OutboundView)
    ensures
        call.deadline is Some ==> through(plan(e, lazy), call).deadline == call.deadline,
        call.deadline is None ==> through(plan(e, lazy), call).deadline == e.timeout,
{
    lemma_through_plan(e, lazy, call);
}

} // verus!
