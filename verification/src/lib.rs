//! Outbound service gateway: a tenant-scoped registry of upstreams and routes,
//! pluggable outbound authentication, and the request pipeline that resolves,
//! authorizes, authenticates and dispatches a proxied call.

pub mod config;
pub mod domain;
pub mod infra;
pub mod security;
pub mod string_map;
pub mod text;
