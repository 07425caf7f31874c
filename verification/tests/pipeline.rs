use oagw::config::OagwConfig;
use oagw::domain::model::{RouteDefinition, UpstreamDefinition};
use oagw::domain::pipeline::{
    Event, OutboundCall, Pipeline, ProxyError, ProxyRequest, ProxyResponse, ProxyStep,
    TransportOutcome,
};
use oagw::domain::plugin::{PluginError, PluginErrorKind, SecretLookup};
use oagw::domain::policy::{Decision, EvalError, PolicyEnforcer};
use oagw::domain::registry::Registry;
use oagw::infra::plugin::{PluginKind, PluginTable, APIKEY_AUTH_PLUGIN_ID, NOOP_AUTH_PLUGIN_ID};
use oagw::security::SecurityContext;
use oagw::string_map::StringMap;

const TENANT: u128 = 0xA1;
const OTHER: u128 = 0xB2;
const UPSTREAM: u128 = 100;

fn caller() -> SecurityContext {
    SecurityContext::new(TENANT, 0x5EED)
}

fn apikey_config() -> StringMap<String> {
    let mut config = StringMap::new();
    config.insert("header".to_string(), "authorization".to_string());
    config.insert("prefix".to_string(), "Bearer ".to_string());
    config.insert("secret_ref".to_string(), "cred://openai-key".to_string());
    config
}

fn registry_with(plugin_id: &str, config: StringMap<String>) -> Registry {
    let mut registry = Registry::new();
    registry
        .insert_upstream(
            TENANT,
            UPSTREAM,
            UpstreamDefinition {
                base_address: "https://svc.example".to_string(),
                auth_plugin_id: plugin_id.to_string(),
                auth_plugin_config: config,
            },
        )
        .unwrap();
    registry
        .insert_route(
            TENANT,
            1,
            RouteDefinition {
                upstream_id: UPSTREAM,
                match_key: "/chat".to_string(),
                policy_resource: "chat".to_string(),
                policy_action: "invoke".to_string(),
            },
        )
        .unwrap();
    registry
}

fn pipeline() -> Pipeline {
    Pipeline::new(&OagwConfig::default(), PluginTable::standard())
}

fn request(route_key: &str, body: &[u8]) -> ProxyRequest {
    let mut headers = StringMap::new();
    headers.insert("accept".to_string(), "application/json".to_string());
    ProxyRequest {
        route_key: route_key.to_string(),
        tenant_id: TENANT,
        security_context: caller(),
        headers,
        body: body.to_vec(),
    }
}

fn allow() -> Event {
    Event::Decision(Ok(Decision::allowed()))
}

fn failed(step: ProxyStep) -> ProxyError {
    match step {
        ProxyStep::Failed(error) => error,
        ProxyStep::Authorizing { .. } => panic!("still authorizing"),
        ProxyStep::Authenticating { .. } => panic!("still authenticating"),
        ProxyStep::Dispatching { .. } => panic!("dispatching"),
        ProxyStep::Completed(_) => panic!("completed"),
    }
}

fn outbound(step: ProxyStep) -> OutboundCall {
    match step {
        ProxyStep::Dispatching { outbound } => outbound,
        ProxyStep::Failed(error) => panic!("failed: {error:?}"),
        _ => panic!("not dispatching"),
    }
}

#[test]
fn default_timeout_is_thirty_seconds_in_milliseconds() {
    let pipeline = pipeline();
    assert_eq!(pipeline.request_timeout_ms(), 30_000);
    assert_eq!(pipeline.max_body_size_bytes(), 10 * 1024 * 1024);
    let overridden = pipeline.with_request_timeout(1);
    assert_eq!(overridden.request_timeout_ms(), 1);
    assert_eq!(overridden.max_body_size_bytes(), 10 * 1024 * 1024);
}

#[test]
fn timeout_that_cannot_be_told_in_milliseconds_saturates() {
    let config = OagwConfig { proxy_timeout_secs: u64::MAX, max_body_size_bytes: 1 };
    assert_eq!(Pipeline::new(&config, PluginTable::new()).request_timeout_ms(), u64::MAX);
    let config = OagwConfig { proxy_timeout_secs: u64::MAX / 1000, max_body_size_bytes: 1 };
    assert_eq!(
        Pipeline::new(&config, PluginTable::new()).request_timeout_ms(),
        (u64::MAX / 1000) * 1000
    );
    let config = OagwConfig { proxy_timeout_secs: u64::MAX / 1000 + 1, max_body_size_bytes: 1 };
    assert_eq!(Pipeline::new(&config, PluginTable::new()).request_timeout_ms(), u64::MAX);
    let config = OagwConfig { proxy_timeout_secs: 0, max_body_size_bytes: 1 };
    assert_eq!(Pipeline::new(&config, PluginTable::new()).request_timeout_ms(), 0);
}

#[test]
fn unknown_route_fails_with_route_not_found() {
    let registry = registry_with(APIKEY_AUTH_PLUGIN_ID, apikey_config());
    let step = pipeline().begin(&registry, request("/nope", b""));
    assert!(matches!(failed(step), ProxyError::RouteNotFound));
}

#[test]
fn route_of_another_tenant_is_not_found() {
    let registry = registry_with(APIKEY_AUTH_PLUGIN_ID, apikey_config());
    let mut foreign = request("/chat", b"");
    foreign.tenant_id = OTHER;
    let step = pipeline().begin(&registry, foreign);
    assert!(matches!(failed(step), ProxyError::RouteNotFound));
}

#[test]
fn dangling_route_fails_with_upstream_not_found() {
    let mut registry = registry_with(APIKEY_AUTH_PLUGIN_ID, apikey_config());
    registry
        .insert_route(
            TENANT,
            2,
            RouteDefinition {
                upstream_id: 404,
                match_key: "/dangling".to_string(),
                policy_resource: "chat".to_string(),
                policy_action: "invoke".to_string(),
            },
        )
        .unwrap();
    let step = pipeline().begin(&registry, request("/dangling", b""));
    assert!(matches!(failed(step), ProxyError::UpstreamNotFound));

    // The upstream of another tenant does not stand in, even under the same id.
    registry
        .insert_upstream(
            OTHER,
            404,
            UpstreamDefinition {
                base_address: "https://foreign.example".to_string(),
                auth_plugin_id: NOOP_AUTH_PLUGIN_ID.to_string(),
                auth_plugin_config: StringMap::new(),
            },
        )
        .unwrap();
    let step = pipeline().begin(&registry, request("/dangling", b""));
    assert!(matches!(failed(step), ProxyError::UpstreamNotFound));

    // A deleted upstream leaves its routes dangling.
    assert!(registry.delete_upstream(TENANT, UPSTREAM));
    let step = pipeline().begin(&registry, request("/chat", b""));
    assert!(matches!(failed(step), ProxyError::UpstreamNotFound));
}

#[test]
fn resolution_asks_the_policy_engine_about_the_route() {
    let registry = registry_with(APIKEY_AUTH_PLUGIN_ID, apikey_config());
    match pipeline().begin(&registry, request("/chat", b"hello")) {
        ProxyStep::Authorizing { call, request } => {
            assert_eq!(request.security_context, caller());
            assert_eq!(request.resource, "chat");
            assert_eq!(request.action, "invoke");
            assert_eq!(call.upstream.id, UPSTREAM);
            assert_eq!(call.upstream.tenant_id, TENANT);
            assert_eq!(call.route.match_key, "/chat");
            assert_eq!(call.security_context, caller());
            assert_eq!(call.body, b"hello");
            assert_eq!(call.headers.get("accept").unwrap(), "application/json");
        }
        _ => panic!("expected the authorizing step"),
    }
}

#[test]
fn denial_fails_with_forbidden_and_keeps_the_reason() {
    let registry = registry_with(APIKEY_AUTH_PLUGIN_ID, apikey_config());
    let pipeline = pipeline();

    let step = pipeline.begin(&registry, request("/chat", b""));
    let step = pipeline.step(step, Event::Decision(Ok(Decision::denied(None))));
    assert!(matches!(failed(step), ProxyError::Forbidden(None)));

    let step = pipeline.begin(&registry, request("/chat", b""));
    let denied = Decision::denied(Some("not on the list".to_string()));
    let step = pipeline.step(step, Event::Decision(Ok(denied)));
    match failed(step) {
        ProxyError::Forbidden(reason) => assert_eq!(reason.as_deref(), Some("not on the list")),
        other => panic!("unexpected error: {other:?}"),
    }
}

#[test]
fn deny_wins_over_an_oversized_body_and_a_broken_plugin_config() {
    let config = OagwConfig { proxy_timeout_secs: 30, max_body_size_bytes: 4 };
    let pipeline = Pipeline::new(&config, PluginTable::standard());
    let registry = registry_with(APIKEY_AUTH_PLUGIN_ID, StringMap::new());
    let step = pipeline.begin(&registry, request("/chat", b"far too large"));
    let step = pipeline.step(step, Event::Decision(Ok(Decision::denied(None))));
    assert!(matches!(failed(step), ProxyError::Forbidden(None)));
}

#[test]
fn a_policy_engine_that_fails_has_not_allowed() {
    let registry = registry_with(APIKEY_AUTH_PLUGIN_ID, apikey_config());
    let pipeline = pipeline();
    let step = pipeline.begin(&registry, request("/chat", b""));
    let outage = EvalError { message: "connection refused".to_string() };
    let step = pipeline.step(step, Event::Decision(Err(outage)));
    match failed(step) {
        ProxyError::Forbidden(reason) => {
            assert_eq!(reason.as_deref(), Some("policy evaluation failed: connection refused"))
        }
        other => panic!("unexpected error: {other:?}"),
    }

    let decision = PolicyEnforcer::decide(Err(EvalError { message: "x".to_string() }));
    assert!(!decision.allow);
    assert_eq!(decision.deny_reason.as_deref(), Some("policy evaluation failed: x"));
    assert!(decision.constraints.is_empty());
}

#[test]
fn constraints_do_not_gate_the_call() {
    let registry = registry_with(NOOP_AUTH_PLUGIN_ID, StringMap::new());
    let pipeline = pipeline();
    let step = pipeline.begin(&registry, request("/chat", b""));
    let decision = Decision {
        allow: true,
        deny_reason: Some("ignored when allowed".to_string()),
        constraints: vec!["owner_tenant_id = a1".to_string()],
    };
    let kept = PolicyEnforcer::decide(Ok(Decision {
        allow: true,
        deny_reason: None,
        constraints: vec!["c1".to_string(), "c2".to_string()],
    }));
    assert_eq!(kept.constraints, vec!["c1".to_string(), "c2".to_string()]);
    let step = pipeline.step(step, Event::Decision(Ok(decision)));
    assert!(matches!(step, ProxyStep::Dispatching { .. }));
}

#[test]
fn unknown_plugin_is_an_internal_authentication_failure() {
    let registry = registry_with("mtls", StringMap::new());
    let pipeline = pipeline();
    let step = pipeline.begin(&registry, request("/chat", b""));
    let step = pipeline.step(step, allow());
    match failed(step) {
        ProxyError::AuthenticationFailed(error) => {
            assert_eq!(error.kind(), PluginErrorKind::Internal);
            assert_eq!(error.detail(), "unknown auth plugin: mtls");
        }
        other => panic!("unexpected error: {other:?}"),
    }
}

#[test]
fn plugins_can_be_registered_under_other_ids() {
    let mut plugins = PluginTable::new();
    assert_eq!(plugins.resolve("apikey"), None);
    plugins.register("bearer".to_string(), PluginKind::ApiKey);
    plugins.register("none".to_string(), PluginKind::Noop);
    plugins.register("none".to_string(), PluginKind::ApiKey);
    plugins.register("none".to_string(), PluginKind::Noop);
    assert_eq!(plugins.resolve("bearer"), Some(PluginKind::ApiKey));
    assert_eq!(plugins.resolve("none"), Some(PluginKind::Noop));
    assert_eq!(plugins.resolve("apikey"), None);
    let standard = PluginTable::standard();
    assert_eq!(standard.resolve("apikey"), Some(PluginKind::ApiKey));
    assert_eq!(standard.resolve("noop"), Some(PluginKind::Noop));
    assert_eq!(standard.resolve("Noop"), None);

    let pipeline = Pipeline::new(&OagwConfig::default(), plugins);
    let registry = registry_with("bearer", apikey_config());
    let step = pipeline.begin(&registry, request("/chat", b""));
    let step = pipeline.step(step, allow());
    assert!(matches!(step, ProxyStep::Authenticating { plugin: PluginKind::ApiKey, .. }));
}

#[test]
fn broken_plugin_config_fails_before_any_secret_is_asked_for() {
    let registry = registry_with(APIKEY_AUTH_PLUGIN_ID, StringMap::new());
    let pipeline = pipeline();
    let step = pipeline.begin(&registry, request("/chat", b""));
    let step = pipeline.step(step, allow());
    match failed(step) {
        ProxyError::AuthenticationFailed(PluginError::Internal(detail)) => {
            assert_eq!(detail, "invalid apikey auth config: missing field `header`")
        }
        other => panic!("unexpected error: {other:?}"),
    }
}

#[test]
fn allowed_call_asks_for_the_secret_on_behalf_of_the_caller() {
    let registry = registry_with(APIKEY_AUTH_PLUGIN_ID, apikey_config());
    let pipeline = pipeline();
    let step = pipeline.begin(&registry, request("/chat", b""));
    match pipeline.step(step, allow()) {
        ProxyStep::Authenticating { call, ctx, plugin, secret_ref } => {
            assert_eq!(secret_ref, "openai-key");
            assert_eq!(plugin, PluginKind::ApiKey);
            assert_eq!(ctx.security_context, caller());
            assert!(ctx.headers.is_empty());
            assert_eq!(ctx.config.len(), 3);
            assert_eq!(ctx.config.get("secret_ref").unwrap(), "cred://openai-key");
            assert_eq!(call.upstream.id, UPSTREAM);
        }
        _ => panic!("expected the authenticating step"),
    }
}

#[test]
fn injected_headers_overlay_the_inbound_ones() {
    let registry = registry_with(APIKEY_AUTH_PLUGIN_ID, apikey_config());
    let pipeline = pipeline();
    let mut inbound = request("/chat", b"{\"q\":1}");
    inbound.headers.insert("authorization".to_string(), "Bearer callers-own".to_string());
    inbound.headers.insert("Authorization".to_string(), "kept as it came".to_string());

    let step = pipeline.begin(&registry, inbound);
    let step = pipeline.step(step, allow());
    let step = pipeline.step(step, Event::Secret(SecretLookup::Found(b"sk-abc123".to_vec())));
    let call = outbound(step);

    assert_eq!(call.target, "https://svc.example/chat");
    assert_eq!(call.body, b"{\"q\":1}");
    assert_eq!(call.timeout_ms, 30_000);
    assert_eq!(call.headers.len(), 3);
    assert_eq!(call.headers.get("authorization").unwrap(), "Bearer sk-abc123");
    assert_eq!(call.headers.get("Authorization").unwrap(), "kept as it came");
    assert_eq!(call.headers.get("accept").unwrap(), "application/json");
}

#[test]
fn each_answer_of_the_secret_store_maps_to_its_error() {
    let registry = registry_with(APIKEY_AUTH_PLUGIN_ID, apikey_config());
    let pipeline = pipeline();
    let run = |lookup: SecretLookup| {
        let step = pipeline.begin(&registry, request("/chat", b""));
        let step = pipeline.step(step, allow());
        failed(pipeline.step(step, Event::Secret(lookup)))
    };

    match run(SecretLookup::NotFound) {
        ProxyError::AuthenticationFailed(PluginError::SecretNotFound(secret_ref)) => {
            assert_eq!(secret_ref, "cred://openai-key")
        }
        other => panic!("unexpected error: {other:?}"),
    }
    match run(SecretLookup::Failed("timeout".to_string())) {
        ProxyError::AuthenticationFailed(PluginError::Internal(detail)) => {
            assert_eq!(detail, "credstore error: timeout")
        }
        other => panic!("unexpected error: {other:?}"),
    }
    match run(SecretLookup::InvalidRef("too long".to_string())) {
        ProxyError::AuthenticationFailed(PluginError::Internal(detail)) => {
            assert_eq!(detail, "invalid secret ref 'openai-key': too long")
        }
        other => panic!("unexpected error: {other:?}"),
    }
    match run(SecretLookup::Found(vec![0xFF, 0xFE])) {
        ProxyError::AuthenticationFailed(PluginError::Internal(detail)) => {
            assert_eq!(detail, "secret value is not valid UTF-8")
        }
        other => panic!("unexpected error: {other:?}"),
    }
}

#[test]
fn body_limit_is_checked_before_dispatch() {
    let config = OagwConfig { proxy_timeout_secs: 30, max_body_size_bytes: 4 };
    let pipeline = Pipeline::new(&config, PluginTable::standard());
    let registry = registry_with(NOOP_AUTH_PLUGIN_ID, StringMap::new());

    let step = pipeline.begin(&registry, request("/chat", b"12345"));
    let step = pipeline.step(step, allow());
    assert!(matches!(failed(step), ProxyError::PayloadTooLarge));

    // A body of exactly the limit goes out.
    let step = pipeline.begin(&registry, request("/chat", b"1234"));
    let step = pipeline.step(step, allow());
    assert_eq!(outbound(step).body, b"1234");

    // With a plugin that needs a secret the check comes after authentication.
    let registry = registry_with(APIKEY_AUTH_PLUGIN_ID, apikey_config());
    let step = pipeline.begin(&registry, request("/chat", b"12345"));
    let step = pipeline.step(step, allow());
    assert!(matches!(step, ProxyStep::Authenticating { .. }));
    let step = pipeline.step(step, Event::Secret(SecretLookup::Found(b"s".to_vec())));
    assert!(matches!(failed(step), ProxyError::PayloadTooLarge));
    let step = pipeline.begin(&registry, request("/chat", b"12345"));
    let step = pipeline.step(step, allow());
    let step = pipeline.step(step, Event::Secret(SecretLookup::NotFound));
    assert!(matches!(failed(step), ProxyError::AuthenticationFailed(_)));
}

#[test]
fn noop_upstream_is_dispatched_with_the_inbound_headers() {
    let registry = registry_with(NOOP_AUTH_PLUGIN_ID, StringMap::new());
    let pipeline = pipeline().with_request_timeout(250);
    let step = pipeline.begin(&registry, request("/chat", b"ping"));
    let call = outbound(pipeline.step(step, allow()));
    assert_eq!(call.target, "https://svc.example/chat");
    assert_eq!(call.headers.len(), 1);
    assert_eq!(call.headers.get("accept").unwrap(), "application/json");
    assert_eq!(call.body, b"ping");
    assert_eq!(call.timeout_ms, 250);
}

#[test]
fn transport_outcomes_end_the_call() {
    let registry = registry_with(NOOP_AUTH_PLUGIN_ID, StringMap::new());
    let pipeline = pipeline();
    let dispatching = || {
        let step = pipeline.begin(&registry, request("/chat", b""));
        pipeline.step(step, allow())
    };

    let response = ProxyResponse {
        status: 201,
        headers: vec![
            ("Set-Cookie".to_string(), "a=1".to_string()),
            ("Set-Cookie".to_string(), "b=2".to_string()),
        ],
        body: vec![0, 159, 146, 150],
    };
    match pipeline.step(dispatching(), Event::Transport(TransportOutcome::Response(response))) {
        ProxyStep::Completed(response) => {
            assert_eq!(response.status, 201);
            assert_eq!(
                response.headers,
                vec![
                    ("Set-Cookie".to_string(), "a=1".to_string()),
                    ("Set-Cookie".to_string(), "b=2".to_string()),
                ]
            );
            assert_eq!(response.body, vec![0, 159, 146, 150]);
        }
        _ => panic!("expected the completed step"),
    }

    let step = pipeline.step(dispatching(), Event::Transport(TransportOutcome::TimedOut));
    assert!(matches!(failed(step), ProxyError::Timeout));

    let refused = TransportOutcome::Failed("connection refused".to_string());
    match failed(pipeline.step(dispatching(), Event::Transport(refused))) {
        ProxyError::UpstreamUnavailable(cause) => assert_eq!(cause, "connection refused"),
        other => panic!("unexpected error: {other:?}"),
    }
    assert!(matches!(
        Pipeline::on_transport(TransportOutcome::TimedOut),
        ProxyStep::Failed(ProxyError::Timeout)
    ));
}

#[test]
fn events_that_a_step_does_not_wait_for_are_ignored() {
    let registry = registry_with(APIKEY_AUTH_PLUGIN_ID, apikey_config());
    let pipeline = pipeline();

    let step = pipeline.begin(&registry, request("/chat", b""));
    let step = pipeline.step(step, Event::Secret(SecretLookup::Found(b"early".to_vec())));
    let step = pipeline.step(step, Event::Transport(TransportOutcome::TimedOut));
    assert!(matches!(step, ProxyStep::Authorizing { .. }));

    let step = pipeline.step(step, allow());
    let step = pipeline.step(step, Event::Decision(Ok(Decision::denied(None))));
    let step = pipeline.step(step, Event::Transport(TransportOutcome::TimedOut));
    assert!(matches!(step, ProxyStep::Authenticating { .. }));

    let step = pipeline.step(step, Event::Secret(SecretLookup::Found(b"sk".to_vec())));
    let step = pipeline.step(step, Event::Decision(Ok(Decision::denied(None))));
    let step = pipeline.step(step, Event::Secret(SecretLookup::NotFound));
    assert_eq!(outbound(step).headers.get("authorization").unwrap(), "Bearer sk");
}

#[test]
fn a_call_has_one_result() {
    let registry = registry_with(NOOP_AUTH_PLUGIN_ID, StringMap::new());
    let pipeline = pipeline().with_request_timeout(1);
    let step = pipeline.begin(&registry, request("/chat", b""));
    let step = pipeline.step(step, allow());
    assert_eq!(
        match &step {
            ProxyStep::Dispatching { outbound } => outbound.timeout_ms,
            _ => panic!("expected the dispatching step"),
        },
        1
    );
    let step = pipeline.step(step, Event::Transport(TransportOutcome::TimedOut));
    assert!(matches!(step, ProxyStep::Failed(ProxyError::Timeout)));

    // A late answer does not replace the result.
    let late = ProxyResponse { status: 200, headers: Vec::new(), body: b"late".to_vec() };
    let step = pipeline.step(step, Event::Transport(TransportOutcome::Response(late)));
    assert!(matches!(step, ProxyStep::Failed(ProxyError::Timeout)));
    let step = pipeline.step(step, allow());
    let step = pipeline.step(step, Event::Secret(SecretLookup::NotFound));
    assert!(matches!(step, ProxyStep::Failed(ProxyError::Timeout)));

    let done = ProxyStep::Completed(ProxyResponse {
        status: 204,
        headers: Vec::new(),
        body: Vec::new(),
    });
    let done = pipeline.step(done, Event::Transport(TransportOutcome::TimedOut));
    assert!(matches!(done, ProxyStep::Completed(ProxyResponse { status: 204, .. })));
}
