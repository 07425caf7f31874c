//! What the registry holds: upstreams and the routes that lead to them.

use crate::string_map::StringMap;
use vstd::prelude::*;

verus! {

/// Something that belongs to one tenant and has an id within it.
///
/// The registry keeps such entities apart by tenant: the pair of tenant and
/// id names at most one of them.
pub trait TenantScoped: View + Sized {
    /// The tenant and the id of an entity of the model.
    spec fn scope(model: Self::V) -> (u128, u128);

    /// The owning tenant.
    fn tenant_id(&self) -> (tenant: u128)
        ensures
            tenant == Self::scope(self@).0,
    ;

    /// The id, unique within the tenant.
    fn id(&self) -> (id: u128)
        ensures
            id == Self::scope(self@).1,
    ;

    /// A copy of the entity.
    fn duplicate(&self) -> (copy: Self)
        ensures
            copy@ == self@,
    ;
}

// ---------------------------------------------------------------------------
// Upstream
// ---------------------------------------------------------------------------
/// What a caller provides to register an upstream.
#[derive(Debug)]
pub struct UpstreamDefinition {
    /// Scheme, host and optional path prefix of the backend.
    pub base_address: String,
    /// Names the auth plugin that runs for calls through the upstream.
    pub auth_plugin_id: String,
    /// Configuration of that plugin; the pipeline does not look into it.
    pub auth_plugin_config: StringMap<String>,
}

/// A registered backend target.
#[derive(Debug)]
pub struct Upstream {
    /// Generated when the upstream is created.
    pub id: u128,
    /// The owning tenant; lookups are scoped to it.
    pub tenant_id: u128,
    /// Scheme, host and optional path prefix of the backend.
    pub base_address: String,
    /// Names the auth plugin that runs for calls through the upstream.
    pub auth_plugin_id: String,
    /// Configuration of that plugin; the pipeline does not look into it.
    pub auth_plugin_config: StringMap<String>,
}

/// An upstream as a value of the model.
pub struct UpstreamView {
    pub id: u128,
    pub tenant_id: u128,
    pub base_address: Seq<char>,
    pub auth_plugin_id: Seq<char>,
    pub auth_plugin_config: Map<Seq<char>, Seq<char>>,
}

/// An upstream definition as a value of the model.
pub struct UpstreamDefinitionView {
    pub base_address: Seq<char>,
    pub auth_plugin_id: Seq<char>,
    pub auth_plugin_config: Map<Seq<char>, Seq<char>>,
}

impl UpstreamDefinitionView {
    /// The upstream that the definition describes, once it has a tenant and an id.
    pub open spec fn registered(self, tenant_id: u128, id: u128) -> UpstreamView {
        UpstreamView {
            id,
            tenant_id,
            base_address: self.base_address,
            auth_plugin_id: self.auth_plugin_id,
            auth_plugin_config: self.auth_plugin_config,
        }
    }
}

impl View for UpstreamDefinition {
    type V = UpstreamDefinitionView;

    open spec fn view(&self) -> UpstreamDefinitionView {
        UpstreamDefinitionView {
            base_address: self.base_address@,
            auth_plugin_id: self.auth_plugin_id@,
            auth_plugin_config: self.auth_plugin_config@,
        }
    }
}

impl View for Upstream {
    type V = UpstreamView;

    open spec fn view(&self) -> UpstreamView {
        UpstreamView {
            id: self.id,
            tenant_id: self.tenant_id,
            base_address: self.base_address@,
            auth_plugin_id: self.auth_plugin_id@,
            auth_plugin_config: self.auth_plugin_config@,
        }
    }
}

impl TenantScoped for Upstream {
    open spec fn scope(model: UpstreamView) -> (u128, u128) {
        (model.tenant_id, model.id)
    }

    fn tenant_id(&self) -> (tenant: u128) {
        self.tenant_id
    }

    fn id(&self) -> (id: u128) {
        self.id
    }

    fn duplicate(&self) -> (copy: Self) {
        Upstream {
            id: self.id,
            tenant_id: self.tenant_id,
            base_address: self.base_address.clone(),
            auth_plugin_id: self.auth_plugin_id.clone(),
            auth_plugin_config: self.auth_plugin_config.duplicate(),
        }
    }
}

impl Clone for Upstream {
    fn clone(&self) -> (copy: Self)
        ensures
            copy@ == self@,
    {
        self.duplicate()
    }
}

// ---------------------------------------------------------------------------
// Route
// ---------------------------------------------------------------------------
/// What a caller provides to register a route.
#[derive(Debug)]
pub struct RouteDefinition {
    /// The upstream that calls are sent to. It is looked up when a call is
    /// proxied, never when the route is created.
    pub upstream_id: u128,
    /// The path or logical name by which callers address the route.
    pub match_key: String,
    /// The resource that the authorization decision is asked about.
    pub policy_resource: String,
    /// The action that the authorization decision is asked about.
    pub policy_action: String,
}

/// A named, tenant-scoped mapping from what a caller addresses to an upstream
/// and the inputs of the authorization decision.
#[derive(Debug)]
pub struct Route {
    /// Generated when the route is created.
    pub id: u128,
    /// The owning tenant; lookups are scoped to it.
    pub tenant_id: u128,
    /// The upstream that calls are sent to, in the same tenant.
    pub upstream_id: u128,
    /// The path or logical name by which callers address the route.
    pub match_key: String,
    /// The resource that the authorization decision is asked about.
    pub policy_resource: String,
    /// The action that the authorization decision is asked about.
    pub policy_action: String,
}

/// A route as a value of the model.
pub struct RouteView {
    pub id: u128,
    pub tenant_id: u128,
    pub upstream_id: u128,
    pub match_key: Seq<char>,
    pub policy_resource: Seq<char>,
    pub policy_action: Seq<char>,
}

/// A route definition as a value of the model.
pub struct RouteDefinitionView {
    pub upstream_id: u128,
    pub match_key: Seq<char>,
    pub policy_resource: Seq<char>,
    pub policy_action: Seq<char>,
}

impl RouteDefinitionView {
    /// The route that the definition describes, once it has a tenant and an id.
    pub open spec fn registered(self, tenant_id: u128, id: u128) -> RouteView {
        RouteView {
            id,
            tenant_id,
            upstream_id: self.upstream_id,
            match_key: self.match_key,
            policy_resource: self.policy_resource,
            policy_action: self.policy_action,
        }
    }
}

impl View for RouteDefinition {
    type V = RouteDefinitionView;

    open spec fn view(&self) -> RouteDefinitionView {
        RouteDefinitionView {
            upstream_id: self.upstream_id,
            match_key: self.match_key@,
            policy_resource: self.policy_resource@,
            policy_action: self.policy_action@,
        }
    }
}

impl View for Route {
    type V = RouteView;

    open spec fn view(&self) -> RouteView {
        RouteView {
            id: self.id,
            tenant_id: self.tenant_id,
            upstream_id: self.upstream_id,
            match_key: self.match_key@,
            policy_resource: self.policy_resource@,
            policy_action: self.policy_action@,
        }
    }
}

impl TenantScoped for Route {
    open spec fn scope(model: RouteView) -> (u128, u128) {
        (model.tenant_id, model.id)
    }

    fn tenant_id(&self) -> (tenant: u128) {
        self.tenant_id
    }

    fn id(&self) -> (id: u128) {
        self.id
    }

    fn duplicate(&self) -> (copy: Self) {
        Route {
            id: self.id,
            tenant_id: self.tenant_id,
            upstream_id: self.upstream_id,
            match_key: self.match_key.clone(),
            policy_resource: self.policy_resource.clone(),
            policy_action: self.policy_action.clone(),
        }
    }
}

impl Clone for Route {
    fn clone(&self) -> (copy: Self)
        ensures
            copy@ == self@,
    {
        self.duplicate()
    }
}

} // verus!
