//! The gateway's domain: what a plugin is, what the registry holds and how a
//! proxied call proceeds.

pub mod gateway;
pub mod model;
pub mod pipeline;
pub mod plugin;
pub mod policy;
pub mod registry;
pub mod test_support;
