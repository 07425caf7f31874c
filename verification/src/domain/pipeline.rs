//! The data plane: how a proxied call proceeds.
//!
//! A call passes through route and upstream resolution, authorization,
//! authentication and dispatch, strictly in that order, and ends at the
//! first failure. The pipeline itself asks no one: each [`ProxyStep`] that is
//! not final names the outside work it waits for (a policy decision, a
//! secret, the outbound call), and [`Pipeline::step`] takes what came back
//! as an [`Event`] and gives the next step.

use crate::config::OagwConfig;
use crate::domain::model::{Route, RouteView, Upstream, UpstreamView};
use crate::domain::plugin::{
    secret_name, AuthContext, AuthPlugin, AuthProgress, PluginError, PluginErrorView,
    SecretLookup, SecretLookupView,
};
use crate::domain::policy::{
    enforced, evaluation_view, optional_text, Decision, EvalError, EvaluationRequest,
    EvaluationRequestView, EvaluationView, PolicyEnforcer,
};
use crate::domain::registry::{route_for, Registry, RegistryView};
use crate::infra::plugin::apikey_auth::parsed_config;
use crate::infra::plugin::{PluginKind, PluginTable};
use crate::infra::storage::scoped;
use crate::security::SecurityContext;
use crate::string_map::StringMap;
use crate::text::{join, lowercase, utf8_text};
use vstd::prelude::*;

verus! {

// ---------------------------------------------------------------------------
// What goes in and what comes out
// ---------------------------------------------------------------------------
/// A call to be proxied.
pub struct ProxyRequest {
    /// The match key of the route that the caller addresses.
    pub route_key: String,
    /// The tenant in whose registry the route is looked up.
    pub tenant_id: u128,
    /// The identity of the caller.
    pub security_context: SecurityContext,
    /// The headers that came in with the call.
    pub headers: StringMap<String>,
    /// The body to send on.
    pub body: Vec<u8>,
}

/// A proxied call as a value of the model.
pub struct ProxyRequestView {
    pub route_key: Seq<char>,
    pub tenant_id: u128,
    pub security_context: SecurityContext,
    pub headers: Map<Seq<char>, Seq<char>>,
    pub body: Seq<u8>,
}

impl View for ProxyRequest {
    type V = ProxyRequestView;

    open spec fn view(&self) -> ProxyRequestView {
        ProxyRequestView {
            route_key: self.route_key@,
            tenant_id: self.tenant_id,
            security_context: self.security_context,
            headers: self.headers@,
            body: self.body@,
        }
    }
}

/// The call that is to be issued to the upstream.
pub struct OutboundCall {
    /// The upstream's base address followed by the route's match key.
    pub target: String,
    /// The inbound headers, overlaid by what the auth plugin injected.
    pub headers: StringMap<String>,
    /// The body of the proxied call, unchanged.
    pub body: Vec<u8>,
    /// How long the call may take, in milliseconds, before it is cancelled.
    pub timeout_ms: u64,
}

/// An outbound call as a value of the model.
pub struct OutboundCallView {
    pub target: Seq<char>,
    pub headers: Map<Seq<char>, Seq<char>>,
    pub body: Seq<u8>,
    pub timeout_ms: u64,
}

impl View for OutboundCall {
    type V = OutboundCallView;

    open spec fn view(&self) -> OutboundCallView {
        OutboundCallView {
            target: self.target@,
            headers: self.headers@,
            body: self.body@,
            timeout_ms: self.timeout_ms,
        }
    }
}

/// What the upstream answered. It is handed to the caller as it came.
#[derive(Debug)]
pub struct ProxyResponse {
    pub status: u16,
    pub headers: Vec<(String, String)>,
    pub body: Vec<u8>,
}

/// How the outbound call ended.
#[derive(Debug)]
pub enum TransportOutcome {
    /// The upstream answered.
    Response(ProxyResponse),
    /// The call took longer than its timeout and was cancelled.
    TimedOut,
    /// The call failed below the level of an answer; the text says how.
    Failed(String),
}

/// An outcome of the outbound call as a value of the model.
pub enum TransportOutcomeView {
    Response(ProxyResponse),
    TimedOut,
    Failed(Seq<char>),
}

impl View for TransportOutcome {
    type V = TransportOutcomeView;

    open spec fn view(&self) -> TransportOutcomeView {
        match self {
            TransportOutcome::Response(response) => TransportOutcomeView::Response(*response),
            TransportOutcome::TimedOut => TransportOutcomeView::TimedOut,
            TransportOutcome::Failed(cause) => TransportOutcomeView::Failed(cause@),
        }
    }
}

/// Why a proxied call failed.
#[derive(Debug)]
pub enum ProxyError {
    /// The tenant has no route with the key that was addressed.
    RouteNotFound,
    /// The route's upstream is not registered for the tenant.
    UpstreamNotFound,
    /// The policy engine did not allow the call; the reason, if it gave one.
    Forbidden(Option<String>),
    /// The auth plugin failed; its error, with its kind.
    AuthenticationFailed(PluginError),
    /// The body is larger than the gateway sends on.
    PayloadTooLarge,
    /// The outbound call took longer than its timeout.
    Timeout,
    /// The outbound call failed below the level of an answer; the cause, as text.
    UpstreamUnavailable(String),
}

/// A pipeline error as a value of the model.
pub enum ProxyErrorView {
    RouteNotFound,
    UpstreamNotFound,
    Forbidden(Option<Seq<char>>),
    AuthenticationFailed(PluginErrorView),
    PayloadTooLarge,
    Timeout,
    UpstreamUnavailable(Seq<char>),
}

impl View for ProxyError {
    type V = ProxyErrorView;

    open spec fn view(&self) -> ProxyErrorView {
        match self {
            ProxyError::RouteNotFound => ProxyErrorView::RouteNotFound,
            ProxyError::UpstreamNotFound => ProxyErrorView::UpstreamNotFound,
            ProxyError::Forbidden(reason) => ProxyErrorView::Forbidden(optional_text(*reason)),
            ProxyError::AuthenticationFailed(error) => ProxyErrorView::AuthenticationFailed(error@),
            ProxyError::PayloadTooLarge => ProxyErrorView::PayloadTooLarge,
            ProxyError::Timeout => ProxyErrorView::Timeout,
            ProxyError::UpstreamUnavailable(cause) => ProxyErrorView::UpstreamUnavailable(cause@),
        }
    }
}

// ---------------------------------------------------------------------------
// Steps and events
// ---------------------------------------------------------------------------
/// What the pipeline remembers of a call while it waits.
pub struct PendingCall {
    /// The upstream that the route leads to.
    pub upstream: Upstream,
    /// The route that the caller addressed.
    pub route: Route,
    /// The identity of the caller.
    pub security_context: SecurityContext,
    /// The headers that came in with the call.
    pub headers: StringMap<String>,
    /// The body to send on.
    pub body: Vec<u8>,
}

/// A waiting call as a value of the model.
pub struct PendingCallView {
    pub upstream: UpstreamView,
    pub route: RouteView,
    pub security_context: SecurityContext,
    pub headers: Map<Seq<char>, Seq<char>>,
    pub body: Seq<u8>,
}

impl View for PendingCall {
    type V = PendingCallView;

    open spec fn view(&self) -> PendingCallView {
        PendingCallView {
            upstream: self.upstream@,
            route: self.route@,
            security_context: self.security_context,
            headers: self.headers@,
            body: self.body@,
        }
    }
}

/// An auth context as a value of the model.
pub struct AuthContextView {
    pub headers: Map<Seq<char>, Seq<char>>,
    pub config: Map<Seq<char>, Seq<char>>,
    pub security_context: SecurityContext,
}

/// The model of an auth context.
pub open spec fn auth_context_view(ctx: AuthContext) -> AuthContextView {
    AuthContextView {
        headers: ctx.headers@,
        config: ctx.config@,
        security_context: ctx.security_context,
    }
}

/// Where a proxied call stands.
///
/// The first three steps wait for outside work and say which; the last two
/// are final.
pub enum ProxyStep {
    /// Route and upstream are resolved. The policy engine is to be asked `request`.
    Authorizing { call: PendingCall, request: EvaluationRequest },
    /// The call is authorized. The secret store is to be asked for
    /// `secret_ref` on behalf of `ctx.security_context`.
    Authenticating { call: PendingCall, ctx: AuthContext, plugin: PluginKind, secret_ref: String },
    /// The call is authenticated. `outbound` is to be issued to the upstream.
    Dispatching { outbound: OutboundCall },
    /// The upstream answered; this is its answer.
    Completed(ProxyResponse),
    /// The call failed, and nothing is left outstanding.
    Failed(ProxyError),
}

/// A step as a value of the model.
pub enum ProxyStepView {
    Authorizing { call: PendingCallView, request: EvaluationRequestView },
    Authenticating {
        call: PendingCallView,
        ctx: AuthContextView,
        plugin: PluginKind,
        secret_ref: Seq<char>,
    },
    Dispatching { outbound: OutboundCallView },
    Completed(ProxyResponse),
    Failed(ProxyErrorView),
}

impl View for ProxyStep {
    type V = ProxyStepView;

    open spec fn view(&self) -> ProxyStepView {
        match self {
            ProxyStep::Authorizing { call, request } => ProxyStepView::Authorizing {
                call: call@,
                request: request@,
            },
            ProxyStep::Authenticating { call, ctx, plugin, secret_ref } => {
                ProxyStepView::Authenticating {
                    call: call@,
                    ctx: auth_context_view(*ctx),
                    plugin: *plugin,
                    secret_ref: secret_ref@,
                }
            },
            ProxyStep::Dispatching { outbound } => ProxyStepView::Dispatching {
                outbound: outbound@,
            },
            ProxyStep::Completed(response) => ProxyStepView::Completed(*response),
            ProxyStep::Failed(error) => ProxyStepView::Failed(error@),
        }
    }
}

impl ProxyStepView {
    /// Whether the call has ended, in an answer or in a failure.
    pub open spec fn is_final(self) -> bool {
        self is Completed || self is Failed
    }
}

/// What came back from the outside work that a step waited for.
pub enum Event {
    /// The policy engine's answer.
    Decision(Result<Decision, EvalError>),
    /// The secret store's answer.
    Secret(SecretLookup),
    /// How the outbound call ended.
    Transport(TransportOutcome),
}

/// An event as a value of the model.
pub enum EventView {
    Decision(EvaluationView),
    Secret(SecretLookupView),
    Transport(TransportOutcomeView),
}

impl View for Event {
    type V = EventView;

    open spec fn view(&self) -> EventView {
        match self {
            Event::Decision(outcome) => EventView::Decision(evaluation_view(*outcome)),
            Event::Secret(lookup) => EventView::Secret(lookup@),
            Event::Transport(outcome) => EventView::Transport(outcome@),
        }
    }
}

// ---------------------------------------------------------------------------
// How a call proceeds
// ---------------------------------------------------------------------------
/// The pipeline's settings as a value of the model.
pub struct PipelineView {
    pub plugins: Map<Seq<char>, PluginKind>,
    pub request_timeout_ms: u64,
    pub max_body_size_bytes: usize,
}

/// The timeout in milliseconds that a number of seconds stands for, at most
/// the largest number of milliseconds that can be told.
pub open spec fn timeout_ms_of(secs: u64) -> u64 {
    if secs * 1000 <= u64::MAX {
        (secs * 1000) as u64
    } else {
        u64::MAX
    }
}

/// The error for an upstream that names a plugin that is not registered.
pub open spec fn unknown_plugin(id: Seq<char>) -> PluginErrorView {
    PluginErrorView::internal("unknown auth plugin: "@ + id)
}

/// Resolution: the step that a call starts at.
///
/// A route that the tenant does not have ends the call with
/// `RouteNotFound`; a route whose upstream the tenant does not have ends it
/// with `UpstreamNotFound`. Otherwise the policy engine is to be asked about
/// the caller, the route's resource and the route's action.
pub open spec fn started(registry: RegistryView, request: ProxyRequestView) -> ProxyStepView {
    match route_for(registry.routes, request.tenant_id, request.route_key) {
        None => ProxyStepView::Failed(ProxyErrorView::RouteNotFound),
        Some(route) => match scoped::<Upstream>(
            registry.upstreams,
            request.tenant_id,
            route.upstream_id,
        ) {
            None => ProxyStepView::Failed(ProxyErrorView::UpstreamNotFound),
            Some(upstream) => ProxyStepView::Authorizing {
                call: PendingCallView {
                    upstream,
                    route,
                    security_context: request.security_context,
                    headers: request.headers,
                    body: request.body,
                },
                request: EvaluationRequestView {
                    security_context: request.security_context,
                    resource: route.policy_resource,
                    action: route.policy_action,
                },
            },
        },
    }
}

/// Dispatch: the step after authentication left `injected` as its headers.
///
/// A body over the limit ends the call with `PayloadTooLarge` and nothing is
/// sent. Otherwise the call goes to the upstream's base address followed by
/// the route's match key, with the inbound headers overlaid by the injected
/// ones, the body as it came, and the pipeline's timeout.
pub open spec fn dispatched(
    pipeline: PipelineView,
    call: PendingCallView,
    injected: Map<Seq<char>, Seq<char>>,
) -> ProxyStepView {
    if call.body.len() > pipeline.max_body_size_bytes {
        ProxyStepView::Failed(ProxyErrorView::PayloadTooLarge)
    } else {
        ProxyStepView::Dispatching {
            outbound: OutboundCallView {
                target: call.upstream.base_address + call.route.match_key,
                headers: call.headers.union_prefer_right(injected),
                body: call.body,
                timeout_ms: pipeline.request_timeout_ms,
            },
        }
    }
}

/// Authorization: the step after the policy engine answered.
///
/// Anything but an allowing decision ends the call with `Forbidden`, before
/// any plugin runs and before any secret is asked for. An allowed call is
/// handed to the plugin that the upstream names, with a fresh context that
/// holds no header yet and the upstream's plugin configuration.
pub open spec fn authorized(
    pipeline: PipelineView,
    call: PendingCallView,
    outcome: EvaluationView,
) -> ProxyStepView {
    let decision = enforced(outcome);
    if !decision.allow {
        ProxyStepView::Failed(ProxyErrorView::Forbidden(decision.deny_reason))
    } else if !pipeline.plugins.contains_key(call.upstream.auth_plugin_id) {
        ProxyStepView::Failed(
            ProxyErrorView::AuthenticationFailed(unknown_plugin(call.upstream.auth_plugin_id)),
        )
    } else {
        let plugin = pipeline.plugins[call.upstream.auth_plugin_id];
        let config = call.upstream.auth_plugin_config;
        match plugin.started(config, Map::empty()) {
            Err(error) => ProxyStepView::Failed(ProxyErrorView::AuthenticationFailed(error)),
            Ok(AuthProgress::Done(headers)) => dispatched(pipeline, call, headers),
            Ok(AuthProgress::NeedsSecret(secret_ref)) => ProxyStepView::Authenticating {
                call,
                ctx: AuthContextView {
                    headers: Map::empty(),
                    config,
                    security_context: call.security_context,
                },
                plugin,
                secret_ref,
            },
        }
    }
}

/// Authentication: the step after the secret store answered.
///
/// A plugin error ends the call with `AuthenticationFailed` and keeps the
/// plugin's error as it is.
pub open spec fn authenticated(
    pipeline: PipelineView,
    call: PendingCallView,
    ctx: AuthContextView,
    plugin: PluginKind,
    lookup: SecretLookupView,
) -> ProxyStepView {
    match plugin.completed(ctx.config, ctx.headers, lookup) {
        Err(error) => ProxyStepView::Failed(ProxyErrorView::AuthenticationFailed(error)),
        Ok(headers) => dispatched(pipeline, call, headers),
    }
}

/// Bounded execution: the final step after the outbound call ended.
pub open spec fn transported(outcome: TransportOutcomeView) -> ProxyStepView {
    match outcome {
        TransportOutcomeView::Response(response) => ProxyStepView::Completed(response),
        TransportOutcomeView::TimedOut => ProxyStepView::Failed(ProxyErrorView::Timeout),
        TransportOutcomeView::Failed(cause) => ProxyStepView::Failed(
            ProxyErrorView::UpstreamUnavailable(cause),
        ),
    }
}

/// The step that follows `step` when `event` comes in.
///
/// Each waiting step answers to its own kind of event. Any other event is
/// ignored, and a final step stays what it is whatever comes in.
pub open spec fn next(pipeline: PipelineView, step: ProxyStepView, event: EventView) -> ProxyStepView {
    match (step, event) {
        (ProxyStepView::Authorizing { call, request }, EventView::Decision(outcome)) => authorized(
            pipeline,
            call,
            outcome,
        ),
        (
            ProxyStepView::Authenticating { call, ctx, plugin, secret_ref },
            EventView::Secret(lookup),
        ) => authenticated(pipeline, call, ctx, plugin, lookup),
        (ProxyStepView::Dispatching { outbound }, EventView::Transport(outcome)) => transported(
            outcome,
        ),
        _ => step,
    }
}

// ---------------------------------------------------------------------------
// The pipeline
// ---------------------------------------------------------------------------
/// The request pipeline: the plugin table and the two limits it works under.
#[derive(Debug)]
pub struct Pipeline {
    plugins: PluginTable,
    request_timeout_ms: u64,
    max_body_size_bytes: usize,
}

impl View for Pipeline {
    type V = PipelineView;

    closed spec fn view(&self) -> PipelineView {
        PipelineView {
            plugins: self.plugins@,
            request_timeout_ms: self.request_timeout_ms,
            max_body_size_bytes: self.max_body_size_bytes,
        }
    }
}

impl Pipeline {
    /// A pipeline with the given plugins and the limits of `config`.
    pub fn new(config: &OagwConfig, plugins: PluginTable) -> (pipeline: Self)
        ensures
            pipeline@ == (PipelineView {
                plugins: plugins@,
                request_timeout_ms: timeout_ms_of(config.proxy_timeout_secs),
                max_body_size_bytes: config.max_body_size_bytes,
            }),
    {
        let request_timeout_ms = match config.proxy_timeout_secs.checked_mul(1000) {
            Some(ms) => ms,
            None => u64::MAX,
        };
        Pipeline { plugins, request_timeout_ms, max_body_size_bytes: config.max_body_size_bytes }
    }

    /// The same pipeline with another timeout, in milliseconds.
    #[must_use]
    pub fn with_request_timeout(self, timeout_ms: u64) -> (pipeline: Self)
        ensures
            pipeline@ == (PipelineView { request_timeout_ms: timeout_ms, ..self@ }),
    {
        Pipeline {
            plugins: self.plugins,
            request_timeout_ms: timeout_ms,
            max_body_size_bytes: self.max_body_size_bytes,
        }
    }

    /// How long an outbound call may take, in milliseconds.
    pub fn request_timeout_ms(&self) -> (timeout_ms: u64)
        ensures
            timeout_ms == self@.request_timeout_ms,
    {
        self.request_timeout_ms
    }

    /// The largest body, in bytes, that is sent on.
    pub fn max_body_size_bytes(&self) -> (limit: usize)
        ensures
            limit == self@.max_body_size_bytes,
    {
        self.max_body_size_bytes
    }

    /// Starts a proxied call: resolves the route and its upstream in `registry`.
    pub fn begin(&self, registry: &Registry, request: ProxyRequest) -> (step: ProxyStep)
        ensures
            step@ == started(registry@, request@),
    {
        let route = match registry.resolve_route(request.tenant_id, request.route_key.as_str()) {
            Some(route) => route,
            None => {
                return ProxyStep::Failed(ProxyError::RouteNotFound);
            },
        };
        let upstream = match registry.get_upstream(request.tenant_id, route.upstream_id) {
            Some(upstream) => upstream,
            None => {
                return ProxyStep::Failed(ProxyError::UpstreamNotFound);
            },
        };
        let evaluation = PolicyEnforcer::request(
            request.security_context,
            route.policy_resource.as_str(),
            route.policy_action.as_str(),
        );
        ProxyStep::Authorizing {
            call: PendingCall {
                upstream,
                route,
                security_context: request.security_context,
                headers: request.headers,
                body: request.body,
            },
            request: evaluation,
        }
    }

    /// Builds the outbound call, unless the body is over the limit.
    fn dispatch(&self, call: PendingCall, injected: StringMap<String>) -> (step: ProxyStep)
        ensures
            step@ == dispatched(self@, call@, injected@),
    {
        if call.body.len() > self.max_body_size_bytes {
            return ProxyStep::Failed(ProxyError::PayloadTooLarge);
        }
        let target = join(call.upstream.base_address.as_str(), call.route.match_key.as_str());
        let mut headers = call.headers;
        headers.overlay(injected);
        ProxyStep::Dispatching {
            outbound: OutboundCall {
                target,
                headers,
                body: call.body,
                timeout_ms: self.request_timeout_ms,
            },
        }
    }

    /// Takes the policy engine's answer for a call that waits for it.
    pub fn on_decision(&self, call: PendingCall, outcome: Result<Decision, EvalError>) -> (step:
        ProxyStep)
        ensures
            step@ == authorized(self@, call@, evaluation_view(outcome)),
    {
        let decision = PolicyEnforcer::decide(outcome);
        if !decision.allow {
            return ProxyStep::Failed(ProxyError::Forbidden(decision.deny_reason));
        }
        let plugin = match self.plugins.resolve(call.upstream.auth_plugin_id.as_str()) {
            Some(plugin) => plugin,
            None => {
                let detail = join("unknown auth plugin: ", call.upstream.auth_plugin_id.as_str());
                return ProxyStep::Failed(
                    ProxyError::AuthenticationFailed(PluginError::Internal(detail)),
                );
            },
        };
        let mut ctx = AuthContext {
            headers: StringMap::new(),
            config: call.upstream.auth_plugin_config.duplicate(),
            security_context: call.security_context,
        };
        match plugin.authenticate(&mut ctx) {
            Err(error) => ProxyStep::Failed(ProxyError::AuthenticationFailed(error)),
            Ok(None) => self.dispatch(call, ctx.headers),
            Ok(Some(secret_ref)) => ProxyStep::Authenticating { call, ctx, plugin, secret_ref },
        }
    }

    /// Takes the secret store's answer for a call that waits for it.
    pub fn on_secret(
        &self,
        call: PendingCall,
        ctx: AuthContext,
        plugin: PluginKind,
        lookup: SecretLookup,
    ) -> (step: ProxyStep)
        ensures
            step@ == authenticated(self@, call@, auth_context_view(ctx), plugin, lookup@),
    {
        let mut ctx = ctx;
        match plugin.complete(&mut ctx, lookup) {
            Err(error) => ProxyStep::Failed(ProxyError::AuthenticationFailed(error)),
            Ok(()) => self.dispatch(call, ctx.headers),
        }
    }

    /// Takes the end of the outbound call.
    pub fn on_transport(outcome: TransportOutcome) -> (step: ProxyStep)
        ensures
            step@ == transported(outcome@),
    {
        match outcome {
            TransportOutcome::Response(response) => ProxyStep::Completed(response),
            TransportOutcome::TimedOut => ProxyStep::Failed(ProxyError::Timeout),
            TransportOutcome::Failed(cause) => ProxyStep::Failed(
                ProxyError::UpstreamUnavailable(cause),
            ),
        }
    }

    /// Moves a call on by one event.
    pub fn step(&self, step: ProxyStep, event: Event) -> (after: ProxyStep)
        ensures
            after@ == next(self@, step@, event@),
    {
        match (step, event) {
            (ProxyStep::Authorizing { call, request }, Event::Decision(outcome)) => {
                self.on_decision(call, outcome)
            },
            (ProxyStep::Authenticating { call, ctx, plugin, secret_ref }, Event::Secret(lookup)) => {
                self.on_secret(call, ctx, plugin, lookup)
            },
            (ProxyStep::Dispatching { outbound }, Event::Transport(outcome)) => Self::on_transport(
                outcome,
            ),
            (step, _) => step,
        }
    }
}

// ---------------------------------------------------------------------------
// What holds of every call
// ---------------------------------------------------------------------------
/// How far a step is along the pipeline.
pub open spec fn progress(step: ProxyStepView) -> nat {
    match step {
        ProxyStepView::Authorizing { .. } => 1,
        ProxyStepView::Authenticating { .. } => 2,
        ProxyStepView::Dispatching { .. } => 3,
        ProxyStepView::Completed(_) => 4,
        ProxyStepView::Failed(_) => 4,
    }
}

/// A route whose upstream the tenant does not have fails the call with
/// `UpstreamNotFound`. No other upstream stands in: a call that gets past
/// resolution carries the tenant's own route with the addressed key and the
/// tenant's own upstream with the id that the route names.
pub proof fn lemma_resolution_is_exact(registry: RegistryView, request: ProxyRequestView)
    ensures
        route_for(registry.routes, request.tenant_id, request.route_key) is None ==> started(
            registry,
            request,
        ) == ProxyStepView::Failed(ProxyErrorView::RouteNotFound),
        route_for(registry.routes, request.tenant_id, request.route_key) matches Some(route)
            && scoped::<Upstream>(registry.upstreams, request.tenant_id, route.upstream_id)
            is None ==> started(registry, request) == ProxyStepView::Failed(
            ProxyErrorView::UpstreamNotFound,
        ),
        started(registry, request) matches ProxyStepView::Authorizing { call, request: asked } ==> {
            &&& call.route.tenant_id == request.tenant_id
            &&& call.route.match_key == request.route_key
            &&& registry.routes.contains(call.route)
            &&& call.upstream.tenant_id == request.tenant_id
            &&& call.upstream.id == call.route.upstream_id
            &&& registry.upstreams.contains(call.upstream)
            &&& asked.security_context == request.security_context
        },
{
    crate::domain::registry::lemma_route_for(
        registry.routes,
        request.tenant_id,
        request.route_key,
    );
    match route_for(registry.routes, request.tenant_id, request.route_key) {
        Some(route) => {
            crate::infra::storage::lemma_scoped_is_own::<Upstream>(
                registry.upstreams,
                request.tenant_id,
                route.upstream_id,
            );
        },
        None => {},
    }
}

/// A call that is not allowed ends at once with `Forbidden`, whether the
/// policy engine denied it or failed to decide. No plugin has run and no
/// secret is asked for: the step that follows is final.
pub proof fn lemma_denial_ends_the_call(
    pipeline: PipelineView,
    call: PendingCallView,
    request: EvaluationRequestView,
    outcome: EvaluationView,
)
    requires
        !enforced(outcome).allow,
    ensures
        next(pipeline, ProxyStepView::Authorizing { call, request }, EventView::Decision(outcome))
            == ProxyStepView::Failed(ProxyErrorView::Forbidden(enforced(outcome).deny_reason)),
{
}

/// The secret store is asked only for a call that was allowed: a step that
/// newly waits for a secret follows an allowing decision, and it asks on
/// behalf of the caller, for the secret that the upstream's plugin names.
pub proof fn lemma_secrets_follow_authorization(
    pipeline: PipelineView,
    step: ProxyStepView,
    event: EventView,
)
    requires
        next(pipeline, step, event) is Authenticating,
        !(step is Authenticating),
    ensures
        step is Authorizing,
        event matches EventView::Decision(outcome) && enforced(outcome).allow,
        ({
            let call = step->Authorizing_call;
            &&& next(pipeline, step, event)->Authenticating_call == call
            &&& next(pipeline, step, event)->Authenticating_ctx.security_context
                == call.security_context
            &&& next(pipeline, step, event)->Authenticating_ctx.config
                == call.upstream.auth_plugin_config
            &&& pipeline.plugins.contains_key(call.upstream.auth_plugin_id)
            &&& next(pipeline, step, event)->Authenticating_plugin
                == pipeline.plugins[call.upstream.auth_plugin_id]
        }),
{
}

/// The outbound call is bounded by the pipeline's timeout, and a call that
/// ran into it ends with `Timeout`.
pub proof fn lemma_timeout_bounds_the_call(
    pipeline: PipelineView,
    pending: PendingCallView,
    injected: Map<Seq<char>, Seq<char>>,
    call: OutboundCallView,
)
    ensures
        dispatched(pipeline, pending, injected) matches ProxyStepView::Dispatching {
            outbound,
        } ==> outbound.timeout_ms == pipeline.request_timeout_ms && outbound.body
            == pending.body,
        next(
            pipeline,
            ProxyStepView::Dispatching { outbound: call },
            EventView::Transport(TransportOutcomeView::TimedOut),
        ) == ProxyStepView::Failed(ProxyErrorView::Timeout),
{
}

/// A call has one result: once it has ended, in an answer or in a failure,
/// no event changes how it ended.
pub proof fn lemma_final_steps_stay(pipeline: PipelineView, step: ProxyStepView, event: EventView)
    requires
        step.is_final(),
    ensures
        next(pipeline, step, event) == step,
{
}

/// A call only moves forward: an event either leaves the step as it is or
/// takes the call further along the pipeline. Nothing is retried, so a call
/// ends after three events that it waited for, at the latest.
pub proof fn lemma_steps_only_advance(pipeline: PipelineView, step: ProxyStepView, event: EventView)
    ensures
        next(pipeline, step, event) == step || progress(next(pipeline, step, event)) > progress(
            step,
        ),
{
}

/// Nothing is sent for a body over the limit: the call ends with
/// `PayloadTooLarge` instead of being dispatched.
pub proof fn lemma_oversized_body_is_not_sent(
    pipeline: PipelineView,
    call: PendingCallView,
    injected: Map<Seq<char>, Seq<char>>,
)
    ensures
        call.body.len() > pipeline.max_body_size_bytes ==> dispatched(pipeline, call, injected)
            == ProxyStepView::Failed(ProxyErrorView::PayloadTooLarge),
        call.body.len() <= pipeline.max_body_size_bytes ==> dispatched(
            pipeline,
            call,
            injected,
        ) is Dispatching,
{
}

/// An allowed call through an upstream with the API key plugin asks for the
/// configured secret, and with the secret in hand it is dispatched to the
/// upstream's address followed by the route's key, carrying the inbound
/// headers and, over them, the prefix and the secret under the lowercase
/// header name.
pub proof fn lemma_api_key_call_is_dispatched(
    pipeline: PipelineView,
    call: PendingCallView,
    request: EvaluationRequestView,
    outcome: EvaluationView,
    secret: Seq<u8>,
)
    requires
        enforced(outcome).allow,
        pipeline.plugins.contains_key(call.upstream.auth_plugin_id),
        pipeline.plugins[call.upstream.auth_plugin_id] == PluginKind::ApiKey,
        parsed_config(call.upstream.auth_plugin_config) is Ok,
        utf8_text(secret) is Some,
        call.body.len() <= pipeline.max_body_size_bytes,
    ensures
        ({
            let config = parsed_config(call.upstream.auth_plugin_config)->Ok_0;
            let waiting = next(
                pipeline,
                ProxyStepView::Authorizing { call, request },
                EventView::Decision(outcome),
            );
            &&& waiting == ProxyStepView::Authenticating {
                call,
                ctx: AuthContextView {
                    headers: Map::empty(),
                    config: call.upstream.auth_plugin_config,
                    security_context: call.security_context,
                },
                plugin: PluginKind::ApiKey,
                secret_ref: secret_name(config.secret_ref),
            }
            &&& next(pipeline, waiting, EventView::Secret(SecretLookupView::Found(secret)))
                == ProxyStepView::Dispatching {
                outbound: OutboundCallView {
                    target: call.upstream.base_address + call.route.match_key,
                    headers: call.headers.union_prefer_right(
                        Map::empty().insert(
                            lowercase(config.header),
                            config.prefix + utf8_text(secret)->Some_0,
                        ),
                    ),
                    body: call.body,
                    timeout_ms: pipeline.request_timeout_ms,
                },
            }
        }),
{
}

/// Without the secret there is no outbound call: when the secret store holds
/// nothing under the name, the call ends with `AuthenticationFailed` and the
/// plugin's `SecretNotFound`, which names the configured reference.
pub proof fn lemma_missing_secret_ends_the_call(
    pipeline: PipelineView,
    call: PendingCallView,
    ctx: AuthContextView,
    secret_ref: Seq<char>,
)
    requires
        parsed_config(ctx.config) is Ok,
    ensures
        next(
            pipeline,
            ProxyStepView::Authenticating { call, ctx, plugin: PluginKind::ApiKey, secret_ref },
            EventView::Secret(SecretLookupView::NotFound),
        ) == ProxyStepView::Failed(
            ProxyErrorView::AuthenticationFailed(
                PluginErrorView::secret_not_found(parsed_config(ctx.config)->Ok_0.secret_ref),
            ),
        ),
{
}

} // verus!
