//! The plugin for upstreams that need no credential.

use crate::domain::plugin::{
    AuthContext, AuthPlugin, AuthProgress, PluginError, PluginErrorView, SecretLookup,
    SecretLookupView,
};
use vstd::prelude::*;

verus! {

/// Auth plugin that does nothing — used for upstreams requiring no authentication.
#[derive(Debug)]
pub struct NoopAuthPlugin;

impl AuthPlugin for NoopAuthPlugin {
    open spec fn started(
        &self,
        config: Map<Seq<char>, Seq<char>>,
        headers: Map<Seq<char>, Seq<char>>,
    ) -> Result<AuthProgress, PluginErrorView> {
        Ok(AuthProgress::Done(headers))
    }

    open spec fn completed(
        &self,
        config: Map<Seq<char>, Seq<char>>,
        headers: Map<Seq<char>, Seq<char>>,
        lookup: SecretLookupView,
    ) -> Result<Map<Seq<char>, Seq<char>>, PluginErrorView> {
        Ok(headers)
    }

    fn authenticate(&self, ctx: &mut AuthContext) -> (pending: Result<Option<String>, PluginError>)
        ensures
            *final(ctx) == *old(ctx),
    {
        Ok(None)
    }

    fn complete(&self, ctx: &mut AuthContext, lookup: SecretLookup) -> (done: Result<
        (),
        PluginError,
    >)
        ensures
            *final(ctx) == *old(ctx),
    {
        Ok(())
    }
}

} // verus!
