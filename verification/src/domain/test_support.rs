//! Test utilities: stand-ins for the gateway's collaborators, and builders
//! that wire a gateway to them.

use crate::config::{OagwConfig, RuntimeConfig};
use crate::domain::gateway::{Gateway, GatewayView};
use crate::domain::model::{RouteView, UpstreamView};
use crate::domain::pipeline::{
    next, started, timeout_ms_of, Event, EventView, Pipeline, PipelineView, ProxyRequest,
    ProxyRequestView, ProxyStep, ProxyStepView,
};
use crate::domain::plugin::{normalize_secret_ref, secret_name, SecretLookup, SecretLookupView};
use crate::domain::policy::{
    Decision, DecisionView, EvalError, EvaluationRequest, EvaluationView,
};
use crate::domain::registry::Registry;
use crate::infra::plugin::{standard_plugins, PluginTable};
use crate::security::SecurityContext;
use crate::string_map::StringMap;
use vstd::prelude::*;
use vstd::slice::slice_to_vec;
use vstd::string::*;
use vstd::utf8::encode_utf8;

verus! {

// ---------------------------------------------------------------------------
// Policy engines
// ---------------------------------------------------------------------------
/// The decision that a stand-in policy engine gives: allow or deny, without
/// a reason and without constraints.
pub open spec fn plain_decision(allow: bool) -> DecisionView {
    DecisionView { allow, deny_reason: None, constraints: Seq::empty() }
}

/// A decision without a reason and without constraints.
fn decision_of(allow: bool) -> (decision: Decision)
    ensures
        decision@ == plain_decision(allow),
{
    if allow {
        Decision::allowed()
    } else {
        Decision::denied(None)
    }
}

/// Mock policy engine that always allows access, so that tests that do not
/// care about authorization pass by default.
#[derive(Debug)]
pub struct MockAuthZResolverClient;

impl MockAuthZResolverClient {
    /// Allows, whatever is asked.
    pub fn evaluate(&self, request: EvaluationRequest) -> (outcome: Result<Decision, EvalError>)
        ensures
            outcome matches Ok(decision) && decision@ == plain_decision(true),
    {
        Ok(decision_of(true))
    }
}

/// Mock policy engine that always denies access.
#[derive(Debug)]
pub struct DenyingAuthZResolverClient;

impl DenyingAuthZResolverClient {
    /// Denies, whatever is asked.
    pub fn evaluate(&self, request: EvaluationRequest) -> (outcome: Result<Decision, EvalError>)
        ensures
            outcome matches Ok(decision) && decision@ == plain_decision(false),
    {
        Ok(decision_of(false))
    }
}

/// Records all evaluation requests for later inspection.
/// Its decision is configurable and allows by default.
#[derive(Debug)]
pub struct CapturingAuthZResolverClient {
    /// What was asked so far, oldest first.
    pub requests: Vec<EvaluationRequest>,
    /// Whether the client allows what it is asked.
    pub decision: bool,
}

impl CapturingAuthZResolverClient {
    /// Whether the client allows what it is asked.
    pub open spec fn allows(&self) -> bool {
        self.decision
    }

    /// Create a new allowing [`CapturingAuthZResolverClient`].
    pub fn new() -> (client: Self)
        ensures
            client.allows(),
            client.requests@ == Seq::<EvaluationRequest>::empty(),
    {
        CapturingAuthZResolverClient { requests: Vec::new(), decision: true }
    }

    /// Create a denying variant that records requests and denies them.
    pub fn denying() -> (client: Self)
        ensures
            !client.allows(),
            client.requests@ == Seq::<EvaluationRequest>::empty(),
    {
        CapturingAuthZResolverClient { requests: Vec::new(), decision: false }
    }

    /// Return a snapshot of all recorded evaluation requests.
    pub fn recorded(&self) -> (snapshot: Vec<EvaluationRequest>)
        ensures
            snapshot@.len() == self.requests@.len(),
            forall|k: int|
                0 <= k < snapshot@.len() ==> (#[trigger] snapshot@[k])@ == self.requests@[k]@,
    {
        let mut snapshot: Vec<EvaluationRequest> = Vec::new();
        let mut index: usize = 0;
        while index < self.requests.len()
            invariant
                index <= self.requests@.len(),
                snapshot@.len() == index,
                forall|k: int|
                    0 <= k < snapshot@.len() ==> (#[trigger] snapshot@[k])@ == self.requests@[k]@,
            decreases self.requests@.len() - index,
        {
            snapshot.push(self.requests[index].duplicate());
            index += 1;
        }
        snapshot
    }

    /// Records the request and gives the configured decision.
    pub fn evaluate(&mut self, request: EvaluationRequest) -> (outcome: Result<Decision, EvalError>)
        ensures
            final(self).allows() == old(self).allows(),
            final(self).requests@ == old(self).requests@.push(request),
            outcome matches Ok(decision) && decision@ == plain_decision(old(self).allows()),
    {
        self.requests.push(request);
        Ok(decision_of(self.decision))
    }
}

impl Default for CapturingAuthZResolverClient {
    fn default() -> (client: Self)
        ensures
            client.allows(),
            client.requests@ == Seq::<EvaluationRequest>::empty(),
    {
        Self::new()
    }
}

/// The policy engines that a test gateway can be wired to.
#[derive(Debug)]
pub enum TestAuthZClient {
    Allowing(MockAuthZResolverClient),
    Denying(DenyingAuthZResolverClient),
    Capturing(CapturingAuthZResolverClient),
}

impl TestAuthZClient {
    /// Whether the engine allows what it is asked.
    pub open spec fn allows(&self) -> bool {
        match self {
            TestAuthZClient::Allowing(_) => true,
            TestAuthZClient::Denying(_) => false,
            TestAuthZClient::Capturing(client) => client.allows(),
        }
    }

    /// What the engine has recorded so far; nothing, if it does not record.
    pub open spec fn recorded(&self) -> Seq<EvaluationRequest> {
        match self {
            TestAuthZClient::Capturing(client) => client.requests@,
            _ => Seq::empty(),
        }
    }

    /// Whether the engine records what it is asked.
    pub open spec fn records(&self) -> bool {
        self is Capturing
    }

    /// Asks the engine.
    pub fn evaluate(&mut self, request: EvaluationRequest) -> (outcome: Result<Decision, EvalError>)
        ensures
            final(self).allows() == old(self).allows(),
            final(self).records() == old(self).records(),
            final(self).recorded() == if old(self).records() {
                old(self).recorded().push(request)
            } else {
                old(self).recorded()
            },
            outcome matches Ok(decision) && decision@ == plain_decision(old(self).allows()),
    {
        match self {
            TestAuthZClient::Allowing(client) => client.evaluate(request),
            TestAuthZClient::Denying(client) => client.evaluate(request),
            TestAuthZClient::Capturing(client) => client.evaluate(request),
        }
    }
}

// ---------------------------------------------------------------------------
// Secret stores
// ---------------------------------------------------------------------------
/// The secrets that a list of credentials stands for: each value's bytes
/// under the name of its key, a later credential replacing an earlier one
/// with the same name.
pub open spec fn stored_secrets(credentials: Seq<(String, String)>) -> Map<Seq<char>, Seq<u8>>
    decreases credentials.len(),
{
    if credentials.len() == 0 {
        Map::empty()
    } else {
        stored_secrets(credentials.drop_last()).insert(
            secret_name(credentials.last().0@),
            encode_utf8(credentials.last().1@),
        )
    }
}

/// What a store that holds `secrets` answers when asked for `name`.
pub open spec fn looked_up(secrets: Map<Seq<char>, Seq<u8>>, name: Seq<char>) -> SecretLookupView {
    if secrets.contains_key(name) {
        SecretLookupView::Found(secrets[name])
    } else {
        SecretLookupView::NotFound
    }
}

/// Mock secret store for tests. Stores secrets in memory keyed by the bare
/// secret name (without `cred://` prefix).
pub struct MockCredStoreClient {
    store: StringMap<Vec<u8>>,
}

impl View for MockCredStoreClient {
    type V = Map<Seq<char>, Seq<u8>>;

    closed spec fn view(&self) -> Map<Seq<char>, Seq<u8>> {
        self.store@
    }
}

impl MockCredStoreClient {
    /// Create a mock pre-loaded with secrets.
    ///
    /// Keys may optionally include the `cred://` prefix — it is stripped
    /// automatically so lookups work regardless of the prefix convention.
    pub fn with_secrets(creds: Vec<(String, String)>) -> (client: Self)
        ensures
            client@ == stored_secrets(creds@),
    {
        let mut store: StringMap<Vec<u8>> = StringMap::new();
        let mut index: usize = 0;
        assert(creds@.take(0) =~= Seq::<(String, String)>::empty());
        while index < creds.len()
            invariant
                index <= creds@.len(),
                store@ == stored_secrets(creds@.take(index as int)),
            decreases creds@.len() - index,
        {
            let pair = &creds[index];
            let key = normalize_secret_ref(pair.0.as_str());
            let value = pair.1.as_str().as_bytes_vec();
            proof {
                let next = creds@.take(index + 1);
                assert(next.drop_last() =~= creds@.take(index as int));
                assert(next.last() == creds@[index as int]);
            }
            store.insert(key, value);
            index += 1;
        }
        assert(creds@.take(index as int) =~= creds@);
        MockCredStoreClient { store }
    }

    /// Create an empty mock (all lookups find nothing).
    pub fn empty() -> (client: Self)
        ensures
            client@ == Map::<Seq<char>, Seq<u8>>::empty(),
    {
        MockCredStoreClient { store: StringMap::new() }
    }

    /// Looks up the secret that is stored under the name `key`, whoever asks.
    pub fn get(&self, ctx: &SecurityContext, key: &str) -> (lookup: SecretLookup)
        ensures
            lookup@ == looked_up(self@, key@),
    {
        match self.store.get(key) {
            Some(value) => SecretLookup::Found(slice_to_vec(value.as_slice())),
            None => SecretLookup::NotFound,
        }
    }
}

/// Mock secret store that always fails. Useful for testing error-handling paths.
#[derive(Debug)]
pub struct FailingCredStoreClient;

impl FailingCredStoreClient {
    /// Fails, whatever is asked.
    pub fn get(&self, ctx: &SecurityContext, key: &str) -> (lookup: SecretLookup)
        ensures
            lookup@ == SecretLookupView::Failed("backend failure"@),
    {
        SecretLookup::Failed("backend failure".to_owned())
    }
}

// ---------------------------------------------------------------------------
// Builders
// ---------------------------------------------------------------------------
/// Builder for a fully-wired Control Plane test environment.
pub struct TestCpBuilder {
    credentials: Vec<(String, String)>,
}

impl TestCpBuilder {
    /// The credentials that the mock secret store will be loaded with.
    pub closed spec fn credentials(&self) -> Seq<(String, String)> {
        self.credentials@
    }

    #[must_use]
    pub fn new() -> (builder: Self)
        ensures
            builder.credentials() == Seq::<(String, String)>::empty(),
    {
        TestCpBuilder { credentials: Vec::new() }
    }

    /// Pre-load credentials into the mock secret store.
    #[must_use]
    pub fn with_credentials(self, creds: Vec<(String, String)>) -> (builder: Self)
        ensures
            builder.credentials() == creds@,
    {
        let mut builder = self;
        builder.credentials = creds;
        builder
    }

    /// Create an empty registry and the mock secret store with the
    /// builder's credentials.
    pub fn build(self) -> (built: (Registry, MockCredStoreClient))
        ensures
            built.0@.upstreams == Seq::<UpstreamView>::empty(),
            built.0@.routes == Seq::<RouteView>::empty(),
            built.1@ == stored_secrets(self.credentials()),
    {
        (Registry::new(), MockCredStoreClient::with_secrets(self.credentials))
    }
}

impl Default for TestCpBuilder {
    fn default() -> (builder: Self)
        ensures
            builder.credentials() == Seq::<(String, String)>::empty(),
    {
        Self::new()
    }
}

/// Builder for a fully-wired Data Plane test environment.
#[derive(Debug)]
pub struct TestDpBuilder {
    request_timeout_ms: Option<u64>,
    authz_client: Option<TestAuthZClient>,
}

impl TestDpBuilder {
    /// The timeout in milliseconds that overrides the configured one, if any.
    pub closed spec fn request_timeout(&self) -> Option<u64> {
        self.request_timeout_ms
    }

    /// The policy engine that overrides the allowing one, if any.
    pub closed spec fn authz_client(&self) -> Option<TestAuthZClient> {
        self.authz_client
    }

    #[must_use]
    pub fn new() -> (builder: Self)
        ensures
            builder.request_timeout() is None,
            builder.authz_client() is None,
    {
        TestDpBuilder { request_timeout_ms: None, authz_client: None }
    }

    /// Override the request timeout, in milliseconds (useful for timeout tests).
    #[must_use]
    pub fn with_request_timeout(self, timeout_ms: u64) -> (builder: Self)
        ensures
            builder.request_timeout() == Some(timeout_ms),
            builder.authz_client() == self.authz_client(),
    {
        let mut builder = self;
        builder.request_timeout_ms = Some(timeout_ms);
        builder
    }

    /// Override the policy engine (useful for authorization tests).
    #[must_use]
    pub fn with_authz_client(self, client: TestAuthZClient) -> (builder: Self)
        ensures
            builder.request_timeout() == self.request_timeout(),
            builder.authz_client() == Some(client),
    {
        let mut builder = self;
        builder.authz_client = Some(client);
        builder
    }

    /// The timeout that the built pipeline has, for the limits of `config`.
    pub open spec fn built_timeout(&self, config: OagwConfig) -> u64 {
        match self.request_timeout() {
            Some(timeout_ms) => timeout_ms,
            None => timeout_ms_of(config.proxy_timeout_secs),
        }
    }

    /// Create a pipeline with the plugins that ship with the gateway and the
    /// limits of `config`, and the policy engine to ask: the builder's, or
    /// one that always allows.
    pub fn build(self, config: &OagwConfig) -> (built: (Pipeline, TestAuthZClient))
        ensures
            built.0@ == (PipelineView {
                plugins: standard_plugins(),
                request_timeout_ms: self.built_timeout(*config),
                max_body_size_bytes: config.max_body_size_bytes,
            }),
            built.1 == match self.authz_client() {
                Some(client) => client,
                None => TestAuthZClient::Allowing(MockAuthZResolverClient),
            },
    {
        let authz = match self.authz_client {
            Some(client) => client,
            None => TestAuthZClient::Allowing(MockAuthZResolverClient),
        };
        let mut pipeline = Pipeline::new(config, PluginTable::standard());
        if let Some(timeout_ms) = self.request_timeout_ms {
            pipeline = pipeline.with_request_timeout(timeout_ms);
        }
        (pipeline, authz)
    }
}

impl Default for TestDpBuilder {
    fn default() -> (builder: Self)
        ensures
            builder.request_timeout() is None,
            builder.authz_client() is None,
    {
        Self::new()
    }
}

// ---------------------------------------------------------------------------
// Test gateways
// ---------------------------------------------------------------------------
/// How far a call gets when the policy engine answers `allow` and the
/// secret store holds `secrets`: up to the outbound call, or to its end if
/// it ends before.
pub open spec fn driven(
    gateway: GatewayView,
    secrets: Map<Seq<char>, Seq<u8>>,
    allow: bool,
    request: ProxyRequestView,
) -> ProxyStepView {
    let first = started(gateway.registry, request);
    let second = if first is Authorizing {
        next(
            gateway.pipeline,
            first,
            EventView::Decision(EvaluationView::Decided(plain_decision(allow))),
        )
    } else {
        first
    };
    if second is Authenticating {
        next(
            gateway.pipeline,
            second,
            EventView::Secret(looked_up(secrets, second->Authenticating_secret_ref)),
        )
    } else {
        second
    }
}

/// A gateway wired to a mock secret store and a stand-in policy engine.
pub struct TestGateway {
    /// The gateway under test.
    pub gateway: Gateway,
    /// The secret store that lookups go to.
    pub credstore: MockCredStoreClient,
    /// The policy engine that is asked.
    pub authz: TestAuthZClient,
}

impl TestGateway {
    /// Proxies a call against the stand-ins up to the point where the
    /// outbound call is to be issued, or to its end if it ends before.
    pub fn proxy(&mut self, request: ProxyRequest) -> (step: ProxyStep)
        ensures
            step@ == driven(old(self).gateway@, old(self).credstore@, old(self).authz.allows(), request@),
            final(self).gateway@ == old(self).gateway@,
            final(self).credstore@ == old(self).credstore@,
            final(self).authz.allows() == old(self).authz.allows(),
            final(self).authz.records() == old(self).authz.records(),
            final(self).authz.recorded().len() == old(self).authz.recorded().len() + (if started(
                old(self).gateway@.registry,
                request@,
            ) is Authorizing && old(self).authz.records() {
                1int
            } else {
                0int
            }),
            forall|k: int|
                0 <= k < old(self).authz.recorded().len() ==> final(self).authz.recorded()[k]
                    == old(self).authz.recorded()[k],
            started(old(self).gateway@.registry, request@) is Authorizing
                && old(self).authz.records() ==> final(self).authz.recorded().last()@ == started(
                old(self).gateway@.registry,
                request@,
            )->Authorizing_request,
    {
        let first = self.gateway.proxy(request);
        let second = match first {
            ProxyStep::Authorizing { call, request } => {
                let outcome = self.authz.evaluate(request.duplicate());
                self.gateway.resume(
                    ProxyStep::Authorizing { call, request },
                    Event::Decision(outcome),
                )
            },
            other => other,
        };
        match second {
            ProxyStep::Authenticating { call, ctx, plugin, secret_ref } => {
                let lookup = self.credstore.get(&ctx.security_context, secret_ref.as_str());
                self.gateway.resume(
                    ProxyStep::Authenticating { call, ctx, plugin, secret_ref },
                    Event::Secret(lookup),
                )
            },
            other => other,
        }
    }
}

/// Test harness providing the runtime configuration for request handlers
/// and a gateway wired to stand-ins.
pub struct TestAppState {
    /// What request handlers read their limits from.
    pub config: RuntimeConfig,
    /// The gateway and its stand-ins.
    pub facade: TestGateway,
}

/// The body limit of a test application: one hundred mebibytes.
pub open spec fn test_app_body_limit() -> usize {
    104857600
}

/// What a test gateway is built as, for a configuration and two builders.
pub open spec fn built_gateway(
    config: OagwConfig,
    cp_builder: TestCpBuilder,
    dp_builder: TestDpBuilder,
    built: TestGateway,
) -> bool {
    &&& built.gateway@.registry.upstreams == Seq::<UpstreamView>::empty()
    &&& built.gateway@.registry.routes == Seq::<RouteView>::empty()
    &&& built.gateway@.pipeline == (PipelineView {
        plugins: standard_plugins(),
        request_timeout_ms: dp_builder.built_timeout(config),
        max_body_size_bytes: config.max_body_size_bytes,
    })
    &&& built.credstore@ == stored_secrets(cp_builder.credentials())
    &&& built.authz == match dp_builder.authz_client() {
        Some(client) => client,
        None => TestAuthZClient::Allowing(MockAuthZResolverClient),
    }
}

/// Wires a gateway with the limits of `config` to what the builders describe.
fn wire(config: &OagwConfig, cp_builder: TestCpBuilder, dp_builder: TestDpBuilder) -> (built:
    TestGateway)
    ensures
        built_gateway(*config, cp_builder, dp_builder, built),
{
    let (registry, credstore) = cp_builder.build();
    let (pipeline, authz) = dp_builder.build(config);
    TestGateway { gateway: Gateway::new(registry, pipeline), credstore, authz }
}

/// Build the application state for integration tests: a gateway wired to
/// stand-ins, with a body limit of one hundred mebibytes and the default
/// timeout unless the builder overrides it.
pub fn build_test_app_state(cp_builder: TestCpBuilder, dp_builder: TestDpBuilder) -> (state:
    TestAppState)
    ensures
        state.config.max_body_size_bytes == test_app_body_limit(),
        built_gateway(
            OagwConfig {
                proxy_timeout_secs: crate::config::spec_default_proxy_timeout_secs(),
                max_body_size_bytes: test_app_body_limit(),
            },
            cp_builder,
            dp_builder,
            state.facade,
        ),
{
    let config = OagwConfig {
        proxy_timeout_secs: crate::config::default_proxy_timeout_secs(),
        max_body_size_bytes: 100 * 1024 * 1024,
    };
    let facade = wire(&config, cp_builder, dp_builder);
    TestAppState { config: RuntimeConfig::from(&config), facade }
}

/// Build a fully wired gateway for integration tests, with the default
/// limits unless the builder overrides the timeout.
pub fn build_test_gateway(cp_builder: TestCpBuilder, dp_builder: TestDpBuilder) -> (gateway:
    TestGateway)
    ensures
        built_gateway(
            OagwConfig {
                proxy_timeout_secs: crate::config::spec_default_proxy_timeout_secs(),
                max_body_size_bytes: crate::config::spec_default_max_body_size_bytes(),
            },
            cp_builder,
            dp_builder,
            gateway,
        ),
{
    let config = OagwConfig::default();
    wire(&config, cp_builder, dp_builder)
}

} // verus!
