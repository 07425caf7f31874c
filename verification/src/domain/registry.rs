//! The control plane: the registry of upstreams and routes, scoped by tenant.

use crate::domain::model::{
    Route, RouteDefinition, RouteView, TenantScoped, Upstream, UpstreamDefinition, UpstreamView,
};
use crate::infra::ids::{is_random_uuid, random_id};
use crate::infra::storage::{
    fresh_id, holds, lemma_scoped_is_own, lemma_store_is_tenant_local, of_tenant, scoped,
    unique_scopes, without, InMemoryRouteRepo, InMemoryUpstreamRepo,
};
use crate::text::same_text;
use vstd::prelude::*;

verus! {

/// Why the registry refused to create an entity.
#[derive(Clone, Copy, Debug, PartialEq, Eq, Structural)]
pub enum RegistryError {
    /// The tenant already has an entity with the id that was to be given.
    Conflict,
}

/// The registry as a value of the model: its upstreams and its routes, each
/// in the order of creation.
pub struct RegistryView {
    pub upstreams: Seq<UpstreamView>,
    pub routes: Seq<RouteView>,
}

/// The route that `tenant` addresses as `key`: the one created first among
/// the tenant's routes with that match key.
pub open spec fn route_for(routes: Seq<RouteView>, tenant: u128, key: Seq<char>) -> Option<
    RouteView,
>
    decreases routes.len(),
{
    if routes.len() == 0 {
        None
    } else if routes[0].tenant_id == tenant && routes[0].match_key == key {
        Some(routes[0])
    } else {
        route_for(routes.skip(1), tenant, key)
    }
}

/// The registry of upstreams and routes.
///
/// Every lookup names the tenant that asks, and is answered from that
/// tenant's entities only. What is handed out is a copy.
#[derive(Debug)]
pub struct Registry {
    upstreams: InMemoryUpstreamRepo,
    routes: InMemoryRouteRepo,
}

impl View for Registry {
    type V = RegistryView;

    closed spec fn view(&self) -> RegistryView {
        RegistryView { upstreams: self.upstreams@, routes: self.routes@ }
    }
}

impl Registry {
    /// A registry that holds nothing.
    pub fn new() -> (registry: Self)
        ensures
            registry@.upstreams == Seq::<UpstreamView>::empty(),
            registry@.routes == Seq::<RouteView>::empty(),
    {
        Registry { upstreams: InMemoryUpstreamRepo::new(), routes: InMemoryRouteRepo::new() }
    }

    // ----- upstreams ---------------------------------------------------------

    /// Registers an upstream of `tenant` under the given id.
    ///
    /// Fails with `Conflict`, and changes nothing, exactly when the tenant
    /// already has an upstream with this id.
    pub fn insert_upstream(
        &mut self,
        tenant: u128,
        id: u128,
        definition: UpstreamDefinition,
    ) -> (created: Result<Upstream, RegistryError>)
        ensures
            final(self)@.routes == old(self)@.routes,
            match created {
                Ok(upstream) => {
                    &&& !holds::<Upstream>(old(self)@.upstreams, tenant, id)
                    &&& upstream@ == definition@.registered(tenant, id)
                    &&& final(self)@.upstreams == old(self)@.upstreams.push(upstream@)
                },
                Err(error) => {
                    &&& holds::<Upstream>(old(self)@.upstreams, tenant, id)
                    &&& error == RegistryError::Conflict
                    &&& final(self)@.upstreams == old(self)@.upstreams
                },
            },
    {
        let upstream = Upstream {
            id,
            tenant_id: tenant,
            base_address: definition.base_address,
            auth_plugin_id: definition.auth_plugin_id,
            auth_plugin_config: definition.auth_plugin_config,
        };
        let copy = upstream.duplicate();
        if self.upstreams.insert(upstream) {
            Ok(copy)
        } else {
            Err(RegistryError::Conflict)
        }
    }

    /// Registers an upstream of `tenant` under a fresh id, and hands back a copy
    /// of what was registered. This always succeeds.
    ///
    /// The id is drawn at random. Should the tenant already have an upstream
    /// under that very id, the least id that the tenant has none under is
    /// taken instead, so that the id is fresh in either case.
    pub fn create_upstream(&mut self, tenant: u128, definition: UpstreamDefinition) -> (created:
        Result<Upstream, RegistryError>)
        ensures
            final(self)@.routes == old(self)@.routes,
            created matches Ok(upstream) && {
                &&& !holds::<Upstream>(old(self)@.upstreams, tenant, upstream@.id)
                &&& upstream@ == definition@.registered(tenant, upstream@.id)
                &&& final(self)@.upstreams == old(self)@.upstreams.push(upstream@)
                &&& exists|drawn: u128|
                    is_random_uuid(drawn) && upstream@.id == #[trigger] fresh_id::<Upstream>(
                        old(self)@.upstreams,
                        tenant,
                        drawn,
                    )
            },
    {
        let drawn = random_id();
        let id = self.upstreams.free_id(tenant, drawn);
        assert(is_random_uuid(drawn) && id == fresh_id::<Upstream>(self@.upstreams, tenant, drawn));
        self.insert_upstream(tenant, id, definition)
    }

    /// The upstream that `tenant` knows as `id`. An upstream of another
    /// tenant is never returned, whatever its id.
    pub fn get_upstream(&self, tenant: u128, id: u128) -> (found: Option<Upstream>)
        ensures
            match found {
                Some(upstream) => {
                    &&& scoped::<Upstream>(self@.upstreams, tenant, id) == Some(upstream@)
                    &&& upstream@.tenant_id == tenant
                    &&& upstream@.id == id
                },
                None => scoped::<Upstream>(self@.upstreams, tenant, id) is None,
            },
            unique_scopes::<Upstream>(self@.upstreams),
    {
        proof {
            lemma_scoped_is_own::<Upstream>(self@.upstreams, tenant, id);
        }
        self.upstreams.get(tenant, id)
    }

    /// A snapshot of the upstreams of `tenant`, in the order of creation.
    pub fn list_upstreams(&self, tenant: u128) -> (listed: Vec<Upstream>)
        ensures
            listed@.len() == of_tenant::<Upstream>(self@.upstreams, tenant).len(),
            forall|k: int|
                0 <= k < listed@.len() ==> (#[trigger] listed@[k])@ == of_tenant::<Upstream>(
                    self@.upstreams,
                    tenant,
                )[k],
    {
        self.upstreams.list(tenant)
    }

    /// Removes the upstream that `tenant` knows as `id`. Returns `true` when
    /// it was removed and `false` when there was none, which is no error.
    /// Routes that point to the upstream stay as they are.
    pub fn delete_upstream(&mut self, tenant: u128, id: u128) -> (deleted: bool)
        ensures
            deleted == holds::<Upstream>(old(self)@.upstreams, tenant, id),
            final(self)@.upstreams == without::<Upstream>(old(self)@.upstreams, tenant, id),
            !holds::<Upstream>(final(self)@.upstreams, tenant, id),
            final(self)@.routes == old(self)@.routes,
    {
        self.upstreams.delete(tenant, id)
    }

    // ----- routes ------------------------------------------------------------

    /// Registers a route of `tenant` under the given id.
    ///
    /// Whether the route's upstream exists is not looked at: that is found
    /// out when a call is proxied. Fails with `Conflict`, and changes
    /// nothing, exactly when the tenant already has a route with this id.
    pub fn insert_route(&mut self, tenant: u128, id: u128, definition: RouteDefinition) -> (created:
        Result<Route, RegistryError>)
        ensures
            final(self)@.upstreams == old(self)@.upstreams,
            match created {
                Ok(route) => {
                    &&& !holds::<Route>(old(self)@.routes, tenant, id)
                    &&& route@ == definition@.registered(tenant, id)
                    &&& final(self)@.routes == old(self)@.routes.push(route@)
                },
                Err(error) => {
                    &&& holds::<Route>(old(self)@.routes, tenant, id)
                    &&& error == RegistryError::Conflict
                    &&& final(self)@.routes == old(self)@.routes
                },
            },
    {
        let route = Route {
            id,
            tenant_id: tenant,
            upstream_id: definition.upstream_id,
            match_key: definition.match_key,
            policy_resource: definition.policy_resource,
            policy_action: definition.policy_action,
        };
        let copy = route.duplicate();
        if self.routes.insert(route) {
            Ok(copy)
        } else {
            Err(RegistryError::Conflict)
        }
    }

    /// Registers a route of `tenant` under a fresh id, and hands back a copy
    /// of what was registered. This always succeeds.
    ///
    /// The id is drawn at random. Should the tenant already have a route
    /// under that very id, the least id that the tenant has none under is
    /// taken instead, so that the id is fresh in either case.
    pub fn create_route(&mut self, tenant: u128, definition: RouteDefinition) -> (created: Result<
        Route,
        RegistryError,
    >)
        ensures
            final(self)@.upstreams == old(self)@.upstreams,
            created matches Ok(route) && {
                &&& !holds::<Route>(old(self)@.routes, tenant, route@.id)
                &&& route@ == definition@.registered(tenant, route@.id)
                &&& final(self)@.routes == old(self)@.routes.push(route@)
                &&& exists|drawn: u128|
                    is_random_uuid(drawn) && route@.id == #[trigger] fresh_id::<Route>(
                        old(self)@.routes,
                        tenant,
                        drawn,
                    )
            },
    {
        let drawn = random_id();
        let id = self.routes.free_id(tenant, drawn);
        assert(is_random_uuid(drawn) && id == fresh_id::<Route>(self@.routes, tenant, drawn));
        self.insert_route(tenant, id, definition)
    }

    /// The route that `tenant` knows as `id`. A route of another tenant is
    /// never returned, whatever its id.
    pub fn get_route(&self, tenant: u128, id: u128) -> (found: Option<Route>)
        ensures
            match found {
                Some(route) => {
                    &&& scoped::<Route>(self@.routes, tenant, id) == Some(route@)
                    &&& route@.tenant_id == tenant
                    &&& route@.id == id
                },
                None => scoped::<Route>(self@.routes, tenant, id) is None,
            },
            unique_scopes::<Route>(self@.routes),
    {
        proof {
            lemma_scoped_is_own::<Route>(self@.routes, tenant, id);
        }
        self.routes.get(tenant, id)
    }

    /// A snapshot of the routes of `tenant`, in the order of creation.
    pub fn list_routes(&self, tenant: u128) -> (listed: Vec<Route>)
        ensures
            listed@.len() == of_tenant::<Route>(self@.routes, tenant).len(),
            forall|k: int|
                0 <= k < listed@.len() ==> (#[trigger] listed@[k])@ == of_tenant::<Route>(
                    self@.routes,
                    tenant,
                )[k],
    {
        self.routes.list(tenant)
    }

    /// Removes the route that `tenant` knows as `id`. Returns `true` when it
    /// was removed and `false` when there was none, which is no error.
    pub fn delete_route(&mut self, tenant: u128, id: u128) -> (deleted: bool)
        ensures
            deleted == holds::<Route>(old(self)@.routes, tenant, id),
            final(self)@.routes == without::<Route>(old(self)@.routes, tenant, id),
            !holds::<Route>(final(self)@.routes, tenant, id),
            final(self)@.upstreams == old(self)@.upstreams,
    {
        self.routes.delete(tenant, id)
    }

    /// The route that `tenant` addresses as `key`: the one created first
    /// among the tenant's routes with that match key.
    pub fn resolve_route(&self, tenant: u128, key: &str) -> (found: Option<Route>)
        ensures
            match found {
                Some(route) => route_for(self@.routes, tenant, key@) == Some(route@),
                None => route_for(self@.routes, tenant, key@) is None,
            },
    {
        let mut index: usize = 0;
        let n = self.routes.len();
        assert(self@.routes.skip(0) =~= self@.routes);
        while index < n
            invariant
                index <= n,
                n == self@.routes.len(),
                route_for(self@.routes, tenant, key@) == route_for(
                    self@.routes.skip(index as int),
                    tenant,
                    key@,
                ),
            decreases n - index,
        {
            proof {
                let rest = self@.routes.skip(index as int);
                assert(rest[0] == self@.routes[index as int]);
                assert(rest.skip(1) =~= self@.routes.skip(index + 1));
            }
            match self.routes.at(index) {
                Some(route) => {
                    if route.tenant_id == tenant && same_text(route.match_key.as_str(), key) {
                        return Some(route.duplicate());
                    }
                },
                None => {},
            }
            index += 1;
        }
        None
    }
}

/// Tenants do not see each other's upstreams: what a tenant finds under an id
/// is its own upstream, and an upstream created under another tenant leaves
/// what the tenant finds and lists as it was, also where the ids are the same.
pub proof fn lemma_upstreams_are_tenant_scoped(
    upstreams: Seq<UpstreamView>,
    tenant: u128,
    other: u128,
    id: u128,
    created: UpstreamView,
)
    requires
        unique_scopes::<Upstream>(upstreams),
        tenant != other,
        created.tenant_id == other,
    ensures
        scoped::<Upstream>(upstreams, tenant, id) matches Some(found) ==> found.tenant_id == tenant
            && found.id == id,
        scoped::<Upstream>(upstreams.push(created), tenant, id) == scoped::<Upstream>(
            upstreams,
            tenant,
            id,
        ),
        of_tenant::<Upstream>(upstreams.push(created), tenant) == of_tenant::<Upstream>(
            upstreams,
            tenant,
        ),
{
    lemma_scoped_is_own::<Upstream>(upstreams, tenant, id);
    lemma_store_is_tenant_local::<Upstream>(upstreams, created, tenant, id);
}

/// Tenants do not see each other's routes: what a tenant finds under an id or
/// addresses by a key is its own route, and a route created under another
/// tenant leaves what the tenant finds, lists and addresses as it was.
pub proof fn lemma_routes_are_tenant_scoped(
    routes: Seq<RouteView>,
    tenant: u128,
    other: u128,
    id: u128,
    key: Seq<char>,
    created: RouteView,
)
    requires
        unique_scopes::<Route>(routes),
        tenant != other,
        created.tenant_id == other,
    ensures
        scoped::<Route>(routes, tenant, id) matches Some(found) ==> found.tenant_id == tenant
            && found.id == id,
        route_for(routes, tenant, key) matches Some(found) ==> found.tenant_id == tenant
            && found.match_key == key,
        scoped::<Route>(routes.push(created), tenant, id) == scoped::<Route>(routes, tenant, id),
        of_tenant::<Route>(routes.push(created), tenant) == of_tenant::<Route>(routes, tenant),
        route_for(routes.push(created), tenant, key) == route_for(routes, tenant, key),
{
    lemma_scoped_is_own::<Route>(routes, tenant, id);
    lemma_store_is_tenant_local::<Route>(routes, created, tenant, id);
    lemma_route_for(routes, tenant, key);
    lemma_route_for_push(routes, created, tenant, key);
}

/// The route that a key resolves to belongs to the tenant and has the key.
pub proof fn lemma_route_for(routes: Seq<RouteView>, tenant: u128, key: Seq<char>)
    ensures
        route_for(routes, tenant, key) matches Some(found) ==> found.tenant_id == tenant
            && found.match_key == key && routes.contains(found),
        route_for(routes, tenant, key) is None ==> forall|index: int|
            0 <= index < routes.len() ==> !((#[trigger] routes[index]).tenant_id == tenant
                && routes[index].match_key == key),
    decreases routes.len(),
{
    if routes.len() > 0 {
        if routes[0].tenant_id == tenant && routes[0].match_key == key {
        } else {
            let rest = routes.skip(1);
            lemma_route_for(rest, tenant, key);
            if route_for(rest, tenant, key) is Some {
                let found = route_for(rest, tenant, key)->0;
                let at = choose|at: int| 0 <= at < rest.len() && rest[at] == found;
                assert(routes[at + 1] == found);
            } else {
                assert forall|index: int| 0 <= index < routes.len() implies !((
                #[trigger] routes[index]).tenant_id == tenant && routes[index].match_key
                    == key) by {
                    if index > 0 {
                        assert(rest[index - 1] == routes[index]);
                    }
                }
            }
        }
    }
}

/// A route of another tenant, or with another key, changes nothing of what
/// a key resolves to.
proof fn lemma_route_for_push(
    routes: Seq<RouteView>,
    created: RouteView,
    tenant: u128,
    key: Seq<char>,
)
    requires
        !(created.tenant_id == tenant && created.match_key == key),
    ensures
        route_for(routes.push(created), tenant, key) == route_for(routes, tenant, key),
    decreases routes.len(),
{
    let stored = routes.push(created);
    if routes.len() == 0 {
        assert(stored[0] == created);
        assert(stored.skip(1).len() == 0);
        assert(route_for(stored.skip(1), tenant, key) is None);
    } else {
        assert(stored[0] == routes[0]);
        assert(stored.skip(1) =~= routes.skip(1).push(created));
        lemma_route_for_push(routes.skip(1), created, tenant, key);
    }
}

} // verus!
