//! The gateway facade: one handle for the management operations of the
//! registry and for proxying a call. It adds no rule of its own.

use crate::config::OagwConfig;
use crate::domain::model::{
    Route, RouteDefinition, RouteView, Upstream, UpstreamDefinition, UpstreamView,
};
use crate::domain::pipeline::{
    next, started, Event, Pipeline, PipelineView, ProxyRequest, ProxyStep,
};
use crate::domain::registry::{Registry, RegistryError, RegistryView};
use crate::infra::ids::is_random_uuid;
use crate::infra::plugin::PluginTable;
use crate::infra::storage::{fresh_id, holds, of_tenant, scoped, without};
use vstd::prelude::*;

verus! {

/// The gateway: the registry of the control plane and the pipeline of the
/// data plane behind one handle.
#[derive(Debug)]
pub struct Gateway {
    registry: Registry,
    pipeline: Pipeline,
}

/// A gateway as a value of the model.
pub struct GatewayView {
    pub registry: RegistryView,
    pub pipeline: PipelineView,
}

impl View for Gateway {
    type V = GatewayView;

    closed spec fn view(&self) -> GatewayView {
        GatewayView { registry: self.registry@, pipeline: self.pipeline@ }
    }
}

impl Gateway {
    /// A gateway over a registry and a pipeline.
    pub fn new(registry: Registry, pipeline: Pipeline) -> (gateway: Self)
        ensures
            gateway@ == (GatewayView { registry: registry@, pipeline: pipeline@ }),
    {
        Gateway { registry, pipeline }
    }

    /// A gateway with an empty registry, the plugins that ship with the
    /// gateway, and the limits of `config`.
    pub fn with_config(config: &OagwConfig) -> (gateway: Self)
        ensures
            gateway@.registry.upstreams == Seq::<UpstreamView>::empty(),
            gateway@.registry.routes == Seq::<RouteView>::empty(),
            gateway@.pipeline == (PipelineView {
                plugins: crate::infra::plugin::standard_plugins(),
                request_timeout_ms: crate::domain::pipeline::timeout_ms_of(
                    config.proxy_timeout_secs,
                ),
                max_body_size_bytes: config.max_body_size_bytes,
            }),
    {
        Gateway { registry: Registry::new(), pipeline: Pipeline::new(config, PluginTable::standard()) }
    }

    // ----- management --------------------------------------------------------

    /// See [`Registry::create_upstream`].
    pub fn create_upstream(&mut self, tenant: u128, definition: UpstreamDefinition) -> (created:
        Result<Upstream, RegistryError>)
        ensures
            final(self)@.pipeline == old(self)@.pipeline,
            final(self)@.registry.routes == old(self)@.registry.routes,
            created matches Ok(upstream) && {
                &&& !holds::<Upstream>(old(self)@.registry.upstreams, tenant, upstream@.id)
                &&& upstream@ == definition@.registered(tenant, upstream@.id)
                &&& final(self)@.registry.upstreams == old(self)@.registry.upstreams.push(
                    upstream@,
                )
                &&& exists|drawn: u128|
                    is_random_uuid(drawn) && upstream@.id == #[trigger] fresh_id::<Upstream>(
                        old(self)@.registry.upstreams,
                        tenant,
                        drawn,
                    )
            },
    {
        self.registry.create_upstream(tenant, definition)
    }

    /// See [`Registry::insert_upstream`].
    pub fn insert_upstream(
        &mut self,
        tenant: u128,
        id: u128,
        definition: UpstreamDefinition,
    ) -> (created: Result<Upstream, RegistryError>)
        ensures
            final(self)@.pipeline == old(self)@.pipeline,
            final(self)@.registry.routes == old(self)@.registry.routes,
            match created {
                Ok(upstream) => {
                    &&& !holds::<Upstream>(old(self)@.registry.upstreams, tenant, id)
                    &&& upstream@ == definition@.registered(tenant, id)
                    &&& final(self)@.registry.upstreams == old(self)@.registry.upstreams.push(
                        upstream@,
                    )
                },
                Err(error) => {
                    &&& holds::<Upstream>(old(self)@.registry.upstreams, tenant, id)
                    &&& error == RegistryError::Conflict
                    &&& final(self)@.registry.upstreams == old(self)@.registry.upstreams
                },
            },
    {
        self.registry.insert_upstream(tenant, id, definition)
    }

    /// See [`Registry::get_upstream`].
    pub fn get_upstream(&self, tenant: u128, id: u128) -> (found: Option<Upstream>)
        ensures
            match found {
                Some(upstream) => {
                    &&& scoped::<Upstream>(self@.registry.upstreams, tenant, id) == Some(upstream@)
                    &&& upstream@.tenant_id == tenant
                    &&& upstream@.id == id
                },
                None => scoped::<Upstream>(self@.registry.upstreams, tenant, id) is None,
            },
    {
        self.registry.get_upstream(tenant, id)
    }

    /// See [`Registry::list_upstreams`].
    pub fn list_upstreams(&self, tenant: u128) -> (listed: Vec<Upstream>)
        ensures
            listed@.len() == of_tenant::<Upstream>(self@.registry.upstreams, tenant).len(),
            forall|k: int|
                0 <= k < listed@.len() ==> (#[trigger] listed@[k])@ == of_tenant::<Upstream>(
                    self@.registry.upstreams,
                    tenant,
                )[k],
    {
        self.registry.list_upstreams(tenant)
    }

    /// See [`Registry::delete_upstream`].
    pub fn delete_upstream(&mut self, tenant: u128, id: u128) -> (deleted: bool)
        ensures
            final(self)@.pipeline == old(self)@.pipeline,
            final(self)@.registry.routes == old(self)@.registry.routes,
            deleted == holds::<Upstream>(old(self)@.registry.upstreams, tenant, id),
            final(self)@.registry.upstreams == without::<Upstream>(
                old(self)@.registry.upstreams,
                tenant,
                id,
            ),
            !holds::<Upstream>(final(self)@.registry.upstreams, tenant, id),
    {
        self.registry.delete_upstream(tenant, id)
    }

    /// See [`Registry::create_route`].
    pub fn create_route(&mut self, tenant: u128, definition: RouteDefinition) -> (created: Result<
        Route,
        RegistryError,
    >)
        ensures
            final(self)@.pipeline == old(self)@.pipeline,
            final(self)@.registry.upstreams == old(self)@.registry.upstreams,
            created matches Ok(route) && {
                &&& !holds::<Route>(old(self)@.registry.routes, tenant, route@.id)
                &&& route@ == definition@.registered(tenant, route@.id)
                &&& final(self)@.registry.routes == old(self)@.registry.routes.push(route@)
                &&& exists|drawn: u128|
                    is_random_uuid(drawn) && route@.id == #[trigger] fresh_id::<Route>(
                        old(self)@.registry.routes,
                        tenant,
                        drawn,
                    )
            },
    {
        self.registry.create_route(tenant, definition)
    }

    /// See [`Registry::insert_route`].
    pub fn insert_route(&mut self, tenant: u128, id: u128, definition: RouteDefinition) -> (created:
        Result<Route, RegistryError>)
        ensures
            final(self)@.pipeline == old(self)@.pipeline,
            final(self)@.registry.upstreams == old(self)@.registry.upstreams,
            match created {
                Ok(route) => {
                    &&& !holds::<Route>(old(self)@.registry.routes, tenant, id)
                    &&& route@ == definition@.registered(tenant, id)
                    &&& final(self)@.registry.routes == old(self)@.registry.routes.push(route@)
                },
                Err(error) => {
                    &&& holds::<Route>(old(self)@.registry.routes, tenant, id)
                    &&& error == RegistryError::Conflict
                    &&& final(self)@.registry.routes == old(self)@.registry.routes
                },
            },
    {
        self.registry.insert_route(tenant, id, definition)
    }

    /// See [`Registry::get_route`].
    pub fn get_route(&self, tenant: u128, id: u128) -> (found: Option<Route>)
        ensures
            match found {
                Some(route) => {
                    &&& scoped::<Route>(self@.registry.routes, tenant, id) == Some(route@)
                    &&& route@.tenant_id == tenant
                    &&& route@.id == id
                },
                None => scoped::<Route>(self@.registry.routes, tenant, id) is None,
            },
    {
        self.registry.get_route(tenant, id)
    }

    /// See [`Registry::list_routes`].
    pub fn list_routes(&self, tenant: u128) -> (listed: Vec<Route>)
        ensures
            listed@.len() == of_tenant::<Route>(self@.registry.routes, tenant).len(),
            forall|k: int|
                0 <= k < listed@.len() ==> (#[trigger] listed@[k])@ == of_tenant::<Route>(
                    self@.registry.routes,
                    tenant,
                )[k],
    {
        self.registry.list_routes(tenant)
    }

    /// See [`Registry::delete_route`].
    pub fn delete_route(&mut self, tenant: u128, id: u128) -> (deleted: bool)
        ensures
            final(self)@.pipeline == old(self)@.pipeline,
            final(self)@.registry.upstreams == old(self)@.registry.upstreams,
            deleted == holds::<Route>(old(self)@.registry.routes, tenant, id),
            final(self)@.registry.routes == without::<Route>(
                old(self)@.registry.routes,
                tenant,
                id,
            ),
            !holds::<Route>(final(self)@.registry.routes, tenant, id),
    {
        self.registry.delete_route(tenant, id)
    }

    // ----- proxying ----------------------------------------------------------

    /// Starts proxying a call. See [`Pipeline::begin`].
    pub fn proxy(&self, request: ProxyRequest) -> (step: ProxyStep)
        ensures
            step@ == started(self@.registry, request@),
    {
        self.pipeline.begin(&self.registry, request)
    }

    /// Moves a proxied call on by one event. See [`Pipeline::step`].
    pub fn resume(&self, step: ProxyStep, event: Event) -> (after: ProxyStep)
        ensures
            after@ == next(self@.pipeline, step@, event@),
    {
        self.pipeline.step(step, event)
    }
}

} // verus!
