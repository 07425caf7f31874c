//! Gateway tunables: the outbound-call timeout and the largest outbound body.

use vstd::prelude::*;

verus! {

/// Configuration of the gateway.
#[derive(Clone, Copy, Debug)]
pub struct OagwConfig {
    /// Seconds an outbound call may take before it is cancelled.
    pub proxy_timeout_secs: u64,
    /// Largest outbound body, in bytes, that is dispatched.
    pub max_body_size_bytes: usize,
}

/// The default outbound-call timeout in seconds.
pub open spec fn spec_default_proxy_timeout_secs() -> u64 {
    30
}

/// The default body limit in bytes: ten mebibytes.
pub open spec fn spec_default_max_body_size_bytes() -> usize {
    10485760
}

#[verifier::when_used_as_spec(spec_default_proxy_timeout_secs)]
pub fn default_proxy_timeout_secs() -> (secs: u64)
    ensures
        secs == spec_default_proxy_timeout_secs(),
{
    30
}

#[verifier::when_used_as_spec(spec_default_max_body_size_bytes)]
pub fn default_max_body_size_bytes() -> (bytes: usize)
    ensures
        bytes == spec_default_max_body_size_bytes(),
        bytes == 10 * 1024 * 1024,
{
    10 * 1024 * 1024
}

impl Default for OagwConfig {
    fn default() -> (cfg: Self)
        ensures
            cfg.proxy_timeout_secs == default_proxy_timeout_secs(),
            cfg.max_body_size_bytes == default_max_body_size_bytes(),
    {
        Self {
            proxy_timeout_secs: default_proxy_timeout_secs(),
            max_body_size_bytes: default_max_body_size_bytes(),
        }
    }
}

/// Read-only runtime configuration handed to request handlers.
///
/// Derived from [`OagwConfig`] when the gateway starts.
#[derive(Debug, Clone, Copy)]
pub struct RuntimeConfig {
    pub max_body_size_bytes: usize,
}

impl From<&OagwConfig> for RuntimeConfig {
    fn from(cfg: &OagwConfig) -> (runtime: Self) {
        Self { max_body_size_bytes: cfg.max_body_size_bytes }
    }
}

impl vstd::std_specs::convert::FromSpecImpl<&OagwConfig> for RuntimeConfig {
    open spec fn obeys_from_spec() -> bool {
        true
    }

    open spec fn from_spec(cfg: &OagwConfig) -> Self {
        RuntimeConfig { max_body_size_bytes: cfg.max_body_size_bytes }
    }
}

} // verus!
