//! What the domain is built on: the plugins and the in-memory stores.

pub mod ids;
pub mod plugin;
pub mod storage;
