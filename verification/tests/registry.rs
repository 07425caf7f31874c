use oagw::domain::model::{Route, RouteDefinition, TenantScoped, Upstream, UpstreamDefinition};
use oagw::domain::registry::{Registry, RegistryError};
use oagw::string_map::StringMap;
use uuid::Uuid;

const T1: u128 = 0x1111;
const T2: u128 = 0x2222;

fn upstream(base_address: &str) -> UpstreamDefinition {
    let mut config = StringMap::new();
    config.insert("header".to_string(), "authorization".to_string());
    UpstreamDefinition {
        base_address: base_address.to_string(),
        auth_plugin_id: "apikey".to_string(),
        auth_plugin_config: config,
    }
}

fn route(upstream_id: u128, match_key: &str) -> RouteDefinition {
    RouteDefinition {
        upstream_id,
        match_key: match_key.to_string(),
        policy_resource: "chat".to_string(),
        policy_action: "invoke".to_string(),
    }
}

#[test]
fn new_registry_holds_nothing() {
    let registry = Registry::new();
    assert!(registry.get_upstream(T1, 1).is_none());
    assert!(registry.get_route(T1, 1).is_none());
    assert!(registry.list_upstreams(T1).is_empty());
    assert!(registry.list_routes(T1).is_empty());
    assert!(registry.resolve_route(T1, "/chat").is_none());
}

#[test]
fn created_upstream_carries_the_definition() {
    let mut registry = Registry::new();
    let created = registry.create_upstream(T1, upstream("https://svc.example")).unwrap();
    assert_eq!(created.tenant_id, T1);
    assert_eq!(created.base_address, "https://svc.example");
    assert_eq!(created.auth_plugin_id, "apikey");
    assert_eq!(created.auth_plugin_config.len(), 1);
    assert_eq!(created.auth_plugin_config.get("header").unwrap(), "authorization");

    let found = registry.get_upstream(T1, created.id).unwrap();
    assert_eq!(found.id, created.id);
    assert_eq!(found.tenant_id, T1);
    assert_eq!(found.base_address, "https://svc.example");
    assert_eq!(found.auth_plugin_id, "apikey");
    assert_eq!(found.auth_plugin_config.get("header").unwrap(), "authorization");
}

#[test]
fn created_ids_are_random_uuids() {
    let mut registry = Registry::new();
    let a = registry.create_upstream(T1, upstream("https://a.example")).unwrap();
    let b = registry.create_upstream(T1, upstream("https://b.example")).unwrap();
    let r = registry.create_route(T1, route(a.id, "/a")).unwrap();
    for id in [a.id, b.id, r.id] {
        let uuid = Uuid::from_u128(id);
        assert_eq!(uuid.get_version_num(), 4);
        assert_eq!(uuid.get_variant(), uuid::Variant::RFC4122);
        assert_eq!(id & 0xF000_C000_0000_0000_0000, 0x4000_8000_0000_0000_0000);
    }
    assert_ne!(a.id, b.id);
    assert_eq!(registry.list_upstreams(T1).len(), 2);
}

#[test]
fn tenants_do_not_see_each_other_even_with_the_same_id() {
    let mut registry = Registry::new();
    let id = 42;
    registry.insert_upstream(T2, id, upstream("https://t2.example")).unwrap();
    // T1 has nothing under the id, although T2 has.
    assert!(registry.get_upstream(T1, id).is_none());

    registry.insert_upstream(T1, id, upstream("https://t1.example")).unwrap();
    let own = registry.get_upstream(T1, id).unwrap();
    assert_eq!(own.tenant_id, T1);
    assert_eq!(own.base_address, "https://t1.example");
    let other = registry.get_upstream(T2, id).unwrap();
    assert_eq!(other.tenant_id, T2);
    assert_eq!(other.base_address, "https://t2.example");

    let listed = registry.list_upstreams(T1);
    assert_eq!(listed.len(), 1);
    assert_eq!(listed[0].base_address, "https://t1.example");

    // Deleting under one tenant leaves the other's entity.
    assert!(registry.delete_upstream(T2, id));
    assert!(registry.get_upstream(T2, id).is_none());
    assert_eq!(registry.get_upstream(T1, id).unwrap().base_address, "https://t1.example");
}

#[test]
fn inserting_a_taken_id_is_a_conflict_and_changes_nothing() {
    let mut registry = Registry::new();
    registry.insert_upstream(T1, 7, upstream("https://first.example")).unwrap();
    let err = registry.insert_upstream(T1, 7, upstream("https://second.example")).unwrap_err();
    assert_eq!(err, RegistryError::Conflict);
    assert_eq!(registry.list_upstreams(T1).len(), 1);
    assert_eq!(registry.get_upstream(T1, 7).unwrap().base_address, "https://first.example");

    registry.insert_route(T1, 7, route(7, "/first")).unwrap();
    let err = registry.insert_route(T1, 7, route(7, "/second")).unwrap_err();
    assert_eq!(err, RegistryError::Conflict);
    assert_eq!(registry.list_routes(T1).len(), 1);
    assert_eq!(registry.get_route(T1, 7).unwrap().match_key, "/first");
    // Upstreams and routes have ids of their own.
    assert_eq!(registry.list_upstreams(T1).len(), 1);
}

#[test]
fn listing_is_a_snapshot_in_creation_order() {
    let mut registry = Registry::new();
    registry.insert_upstream(T1, 3, upstream("https://three.example")).unwrap();
    registry.insert_upstream(T2, 9, upstream("https://other.example")).unwrap();
    registry.insert_upstream(T1, 1, upstream("https://one.example")).unwrap();
    registry.insert_upstream(T1, 2, upstream("https://two.example")).unwrap();

    let snapshot = registry.list_upstreams(T1);
    let ids: Vec<u128> = snapshot.iter().map(|u| u.id).collect();
    assert_eq!(ids, vec![3, 1, 2]);
    assert!(snapshot.iter().all(|u| u.tenant_id == T1));

    // Later changes do not reach a snapshot that was handed out.
    registry.delete_upstream(T1, 1);
    registry.insert_upstream(T1, 4, upstream("https://four.example")).unwrap();
    assert_eq!(snapshot.len(), 3);
    assert_eq!(snapshot[1].base_address, "https://one.example");
    let ids: Vec<u128> = registry.list_upstreams(T1).iter().map(|u| u.id).collect();
    assert_eq!(ids, vec![3, 2, 4]);
    assert_eq!(registry.list_upstreams(T2).len(), 1);
    assert!(registry.list_upstreams(0x3333).is_empty());
}

#[test]
fn delete_reports_deleted_and_not_found() {
    let mut registry = Registry::new();
    registry.insert_upstream(T1, 1, upstream("https://one.example")).unwrap();
    registry.insert_route(T1, 5, route(1, "/one")).unwrap();

    assert!(!registry.delete_upstream(T1, 2));
    assert!(!registry.delete_upstream(T2, 1));
    assert!(registry.delete_upstream(T1, 1));
    assert!(!registry.delete_upstream(T1, 1));
    assert!(registry.get_upstream(T1, 1).is_none());
    // The route is still there, and points to nothing now.
    assert_eq!(registry.get_route(T1, 5).unwrap().upstream_id, 1);

    assert!(!registry.delete_route(T2, 5));
    assert!(registry.delete_route(T1, 5));
    assert!(!registry.delete_route(T1, 5));
    assert!(registry.list_routes(T1).is_empty());
}

#[test]
fn route_may_be_created_before_its_upstream() {
    let mut registry = Registry::new();
    let created = registry.create_route(T1, route(999, "/early")).unwrap();
    assert_eq!(created.tenant_id, T1);
    assert_eq!(created.upstream_id, 999);
    assert_eq!(created.match_key, "/early");
    assert_eq!(created.policy_resource, "chat");
    assert_eq!(created.policy_action, "invoke");
    assert!(registry.get_upstream(T1, 999).is_none());
    let found = registry.get_route(T1, created.id).unwrap();
    assert_eq!(found.id, created.id);
    assert_eq!(found.match_key, "/early");
}

#[test]
fn routes_resolve_by_key_within_the_tenant() {
    let mut registry = Registry::new();
    registry.insert_route(T2, 1, route(10, "/chat")).unwrap();
    assert!(registry.resolve_route(T1, "/chat").is_none());

    registry.insert_route(T1, 2, route(20, "/other")).unwrap();
    registry.insert_route(T1, 3, route(30, "/chat")).unwrap();
    registry.insert_route(T1, 4, route(40, "/chat")).unwrap();

    let found = registry.resolve_route(T1, "/chat").unwrap();
    assert_eq!(found.id, 3);
    assert_eq!(found.upstream_id, 30);
    assert_eq!(found.tenant_id, T1);
    assert_eq!(registry.resolve_route(T2, "/chat").unwrap().id, 1);
    assert_eq!(registry.resolve_route(T1, "/other").unwrap().id, 2);
    assert!(registry.resolve_route(T1, "/Chat").is_none());
    assert!(registry.resolve_route(T1, "/cha").is_none());

    // Once the first is gone the next with the key takes over.
    assert!(registry.delete_route(T1, 3));
    assert_eq!(registry.resolve_route(T1, "/chat").unwrap().id, 4);
}

#[test]
fn entities_name_their_scope_and_copy_themselves() {
    let mut registry = Registry::new();
    let u: Upstream = registry.insert_upstream(T1, 5, upstream("https://five.example")).unwrap();
    assert_eq!(TenantScoped::tenant_id(&u), T1);
    assert_eq!(TenantScoped::id(&u), 5);
    let copy = u.clone();
    assert_eq!(copy.id, 5);
    assert_eq!(copy.base_address, "https://five.example");
    assert_eq!(copy.auth_plugin_config.get("header").unwrap(), "authorization");

    let r: Route = registry.insert_route(T2, 6, route(5, "/six")).unwrap();
    assert_eq!(TenantScoped::tenant_id(&r), T2);
    assert_eq!(TenantScoped::id(&r), 6);
    let copy = r.duplicate();
    assert_eq!(copy.match_key, "/six");
    assert_eq!(copy.upstream_id, 5);
    assert_eq!(r.clone().policy_action, "invoke");
}

#[test]
fn creation_always_succeeds_with_a_fresh_id() {
    let mut registry = Registry::new();
    // Ids that were inserted by hand do not get in the way of creation.
    for id in 0..8 {
        registry.insert_upstream(T1, id, upstream("https://by-hand.example")).unwrap();
        registry.insert_route(T1, id, route(id, "/by-hand")).unwrap();
    }
    let mut seen = Vec::new();
    for _ in 0..32 {
        let created = registry.create_upstream(T1, upstream("https://made.example"));
        let created = created.expect("creation does not fail");
        assert!(!seen.contains(&created.id));
        assert!(created.id >= 8);
        assert_eq!(registry.get_upstream(T1, created.id).unwrap().base_address, "https://made.example");
        seen.push(created.id);
        let made = registry.create_route(T1, route(created.id, "/made")).expect("creation does not fail");
        assert_eq!(made.upstream_id, created.id);
        assert_eq!(registry.get_route(T1, made.id).unwrap().match_key, "/made");
    }
    assert_eq!(registry.list_upstreams(T1).len(), 40);
    assert_eq!(registry.list_routes(T1).len(), 40);
    assert!(registry.list_upstreams(T2).is_empty());
}
