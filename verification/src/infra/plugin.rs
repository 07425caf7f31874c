//! The auth plugins that ship with the gateway, and the table that names them.

pub mod apikey_auth;
pub mod noop_auth;

use crate::domain::plugin::{
    AuthContext, AuthPlugin, AuthProgress, PluginError, PluginErrorView, SecretLookup,
    SecretLookupView,
};
use crate::infra::plugin::apikey_auth::ApiKeyAuthPlugin;
use crate::infra::plugin::noop_auth::NoopAuthPlugin;
use crate::string_map::StringMap;
use vstd::prelude::*;

verus! {

/// The id under which the API key plugin is registered.
pub const APIKEY_AUTH_PLUGIN_ID: &'static str = "apikey";

/// The id under which the plugin that does nothing is registered.
pub const NOOP_AUTH_PLUGIN_ID: &'static str = "noop";

/// The plugins that the gateway knows how to run.
#[derive(Clone, Copy, Debug, PartialEq, Eq, Structural)]
pub enum PluginKind {
    /// [`NoopAuthPlugin`].
    Noop,
    /// [`ApiKeyAuthPlugin`].
    ApiKey,
}

impl View for PluginKind {
    type V = PluginKind;

    open spec fn view(&self) -> PluginKind {
        *self
    }
}

impl AuthPlugin for PluginKind {
    open spec fn started(
        &self,
        config: Map<Seq<char>, Seq<char>>,
        headers: Map<Seq<char>, Seq<char>>,
    ) -> Result<AuthProgress, PluginErrorView> {
        match self {
            PluginKind::Noop => NoopAuthPlugin.started(config, headers),
            PluginKind::ApiKey => ApiKeyAuthPlugin.started(config, headers),
        }
    }

    open spec fn completed(
        &self,
        config: Map<Seq<char>, Seq<char>>,
        headers: Map<Seq<char>, Seq<char>>,
        lookup: SecretLookupView,
    ) -> Result<Map<Seq<char>, Seq<char>>, PluginErrorView> {
        match self {
            PluginKind::Noop => NoopAuthPlugin.completed(config, headers, lookup),
            PluginKind::ApiKey => ApiKeyAuthPlugin.completed(config, headers, lookup),
        }
    }

    fn authenticate(&self, ctx: &mut AuthContext) -> (pending: Result<Option<String>, PluginError>) {
        match self {
            PluginKind::Noop => NoopAuthPlugin.authenticate(ctx),
            PluginKind::ApiKey => ApiKeyAuthPlugin.authenticate(ctx),
        }
    }

    fn complete(&self, ctx: &mut AuthContext, lookup: SecretLookup) -> (done: Result<
        (),
        PluginError,
    >) {
        match self {
            PluginKind::Noop => NoopAuthPlugin.complete(ctx, lookup),
            PluginKind::ApiKey => ApiKeyAuthPlugin.complete(ctx, lookup),
        }
    }
}

/// The lookup table from plugin ids, as upstreams name them, to plugins.
///
/// It is filled when the gateway starts and only read afterwards.
#[derive(Debug)]
pub struct PluginTable {
    plugins: StringMap<PluginKind>,
}

impl View for PluginTable {
    type V = Map<Seq<char>, PluginKind>;

    closed spec fn view(&self) -> Map<Seq<char>, PluginKind> {
        self.plugins@
    }
}

/// The table with the plugins that ship with the gateway, each under its id.
pub open spec fn standard_plugins() -> Map<Seq<char>, PluginKind> {
    Map::empty().insert(NOOP_AUTH_PLUGIN_ID@, PluginKind::Noop).insert(
        APIKEY_AUTH_PLUGIN_ID@,
        PluginKind::ApiKey,
    )
}

impl PluginTable {
    /// A table without plugins.
    pub fn new() -> (table: Self)
        ensures
            table@ == Map::<Seq<char>, PluginKind>::empty(),
    {
        PluginTable { plugins: StringMap::new() }
    }

    /// The table with the plugins that ship with the gateway.
    pub fn standard() -> (table: Self)
        ensures
            table@ == standard_plugins(),
    {
        let mut table = PluginTable::new();
        table.register(NOOP_AUTH_PLUGIN_ID.to_owned(), PluginKind::Noop);
        table.register(APIKEY_AUTH_PLUGIN_ID.to_owned(), PluginKind::ApiKey);
        table
    }

    /// Makes `plugin` the plugin that runs for upstreams that name `id`.
    pub fn register(&mut self, id: String, plugin: PluginKind)
        ensures
            final(self)@ == old(self)@.insert(id@, plugin),
    {
        self.plugins.insert(id, plugin);
    }

    /// The plugin registered under `id`.
    pub fn resolve(&self, id: &str) -> (plugin: Option<PluginKind>)
        ensures
            plugin == if self@.contains_key(id@) {
                Some(self@[id@])
            } else {
                None
            },
    {
        match self.plugins.get(id) {
            Some(plugin) => Some(*plugin),
            None => None,
        }
    }
}

} // verus!
