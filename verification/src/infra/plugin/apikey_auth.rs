//! The plugin that resolves a secret reference and injects the secret as a header.

use crate::domain::plugin::{
    normalize_secret_ref, secret_name, AuthContext, AuthPlugin, AuthProgress, PluginError,
    PluginErrorKind, PluginErrorView, SecretLookup, SecretLookupView, SECRET_REF_SCHEME,
};
use crate::string_map::StringMap;
use crate::text::{
    decode_text, join, lemma_strip_prefix_restores, lowercase, strip_prefix_spec, to_lowercase,
    utf8_text,
};
use vstd::prelude::*;
use vstd::string::*;

verus! {

/// Configuration for the API key auth plugin.
#[derive(Debug)]
pub struct ApiKeyConfig {
    /// Header name to set (e.g. "Authorization", "X-API-Key").
    pub header: String,
    /// Prefix prepended to the secret value (e.g. "Bearer "); empty by default.
    pub prefix: String,
    /// Secret reference to resolve (e.g. "cred://openai-key").
    pub secret_ref: String,
}

/// A plugin configuration as a value of the model.
pub struct ApiKeyConfigView {
    pub header: Seq<char>,
    pub prefix: Seq<char>,
    pub secret_ref: Seq<char>,
}

impl View for ApiKeyConfig {
    type V = ApiKeyConfigView;

    open spec fn view(&self) -> ApiKeyConfigView {
        ApiKeyConfigView { header: self.header@, prefix: self.prefix@, secret_ref: self.secret_ref@ }
    }
}

/// The error for a configuration that lacks the required key `field`.
pub open spec fn missing_field(field: Seq<char>) -> PluginErrorView {
    PluginErrorView::internal("invalid apikey auth config: missing field `"@ + field + "`"@)
}

/// Reads the plugin configuration out of an upstream's key/value pairs:
/// `header` and `secret_ref` are required, `prefix` defaults to the empty text,
/// other keys are ignored.
pub open spec fn parsed_config(config: Map<Seq<char>, Seq<char>>) -> Result<
    ApiKeyConfigView,
    PluginErrorView,
> {
    if !config.contains_key("header"@) {
        Err(missing_field("header"@))
    } else if !config.contains_key("secret_ref"@) {
        Err(missing_field("secret_ref"@))
    } else {
        Ok(
            ApiKeyConfigView {
                header: config["header"@],
                prefix: if config.contains_key("prefix"@) {
                    config["prefix"@]
                } else {
                    Seq::empty()
                },
                secret_ref: config["secret_ref"@],
            },
        )
    }
}

/// The header value that is injected for a secret: the prefix, then the secret's text.
pub open spec fn header_value(config: ApiKeyConfigView, secret: Seq<char>) -> Seq<char> {
    config.prefix + secret
}

/// What the secret store's answer means for the outbound headers.
pub open spec fn resolved(
    config: ApiKeyConfigView,
    headers: Map<Seq<char>, Seq<char>>,
    lookup: SecretLookupView,
) -> Result<Map<Seq<char>, Seq<char>>, PluginErrorView> {
    match lookup {
        SecretLookupView::InvalidRef(reason) => Err(
            PluginErrorView::internal(
                "invalid secret ref '"@ + secret_name(config.secret_ref) + "': "@ + reason,
            ),
        ),
        SecretLookupView::Failed(reason) => Err(
            PluginErrorView::internal("credstore error: "@ + reason),
        ),
        SecretLookupView::NotFound => Err(PluginErrorView::secret_not_found(config.secret_ref)),
        SecretLookupView::Found(bytes) => match utf8_text(bytes) {
            None => Err(PluginErrorView::internal("secret value is not valid UTF-8"@)),
            Some(secret) => Ok(
                headers.insert(lowercase(config.header), header_value(config, secret)),
            ),
        },
    }
}

/// Auth plugin that resolves a secret reference and injects it as a header value.
#[derive(Debug)]
pub struct ApiKeyAuthPlugin;

impl ApiKeyAuthPlugin {
    #[must_use]
    pub fn new() -> Self {
        ApiKeyAuthPlugin
    }

    /// Reads the plugin configuration out of an upstream's key/value pairs.
    pub fn parse_config(config: &StringMap<String>) -> (parsed: Result<ApiKeyConfig, PluginError>)
        ensures
            match parsed_config(config@) {
                Ok(expected) => parsed matches Ok(c) && c@ == expected,
                Err(error) => parsed matches Err(e) && e@ == error,
            },
    {
        let header = match config.get("header") {
            Some(header) => header.clone(),
            None => {
                return Err(PluginError::Internal(Self::missing("header")));
            },
        };
        let secret_ref = match config.get("secret_ref") {
            Some(secret_ref) => secret_ref.clone(),
            None => {
                return Err(PluginError::Internal(Self::missing("secret_ref")));
            },
        };
        let prefix = match config.get("prefix") {
            Some(prefix) => prefix.clone(),
            None => String::new(),
        };
        Ok(ApiKeyConfig { header, prefix, secret_ref })
    }

    /// Sets the header `name` to `prefix` followed by `secret`, in place of
    /// whatever the header held. `name` is taken as it is: the caller has
    /// brought it to lowercase.
    pub fn inject(ctx: &mut AuthContext, name: String, prefix: &str, secret: &str)
        ensures
            final(ctx).headers@ == old(ctx).headers@.insert(name@, prefix@ + secret@),
            final(ctx).config@ == old(ctx).config@,
            final(ctx).security_context == old(ctx).security_context,
    {
        let value = join(prefix, secret);
        ctx.headers.insert(name, value);
    }

    /// The detail of the error for a configuration without the key `field`.
    fn missing(field: &str) -> (detail: String)
        ensures
            detail@ == missing_field(field@).detail,
    {
        let mut detail = join("invalid apikey auth config: missing field `", field);
        detail.append("`");
        detail
    }
}

impl AuthPlugin for ApiKeyAuthPlugin {
    /// With a well-formed configuration the plugin asks for the configured
    /// secret; it touches no header before it has it.
    open spec fn started(
        &self,
        config: Map<Seq<char>, Seq<char>>,
        headers: Map<Seq<char>, Seq<char>>,
    ) -> Result<AuthProgress, PluginErrorView> {
        match parsed_config(config) {
            Ok(parsed) => Ok(AuthProgress::NeedsSecret(secret_name(parsed.secret_ref))),
            Err(error) => Err(error),
        }
    }

    open spec fn completed(
        &self,
        config: Map<Seq<char>, Seq<char>>,
        headers: Map<Seq<char>, Seq<char>>,
        lookup: SecretLookupView,
    ) -> Result<Map<Seq<char>, Seq<char>>, PluginErrorView> {
        match parsed_config(config) {
            Ok(parsed) => resolved(parsed, headers, lookup),
            Err(error) => Err(error),
        }
    }

    fn authenticate(&self, ctx: &mut AuthContext) -> (pending: Result<Option<String>, PluginError>)
        ensures
            *final(ctx) == *old(ctx),
    {
        match Self::parse_config(&ctx.config) {
            Ok(config) => Ok(Some(normalize_secret_ref(config.secret_ref.as_str()))),
            Err(error) => Err(error),
        }
    }

    fn complete(&self, ctx: &mut AuthContext, lookup: SecretLookup) -> (done: Result<
        (),
        PluginError,
    >) {
        let config = match Self::parse_config(&ctx.config) {
            Ok(config) => config,
            Err(error) => {
                return Err(error);
            },
        };
        match lookup {
            SecretLookup::InvalidRef(reason) => {
                let name = normalize_secret_ref(config.secret_ref.as_str());
                let mut detail = join("invalid secret ref '", name.as_str());
                detail.append("': ");
                detail.append(reason.as_str());
                Err(PluginError::Internal(detail))
            },
            SecretLookup::Failed(reason) => Err(
                PluginError::Internal(join("credstore error: ", reason.as_str())),
            ),
            SecretLookup::NotFound => Err(PluginError::SecretNotFound(config.secret_ref)),
            SecretLookup::Found(bytes) => match decode_text(bytes.as_slice()) {
                None => Err(PluginError::Internal("secret value is not valid UTF-8".to_owned())),
                Some(secret) => {
                    let name = to_lowercase(config.header.as_str());
                    Self::inject(ctx, name, config.prefix.as_str(), secret.as_str());
                    Ok(())
                },
            },
        }
    }
}

/// The three keys of the plugin configuration are different keys.
proof fn lemma_config_keys_differ()
    ensures
        "header"@ != "prefix"@,
        "header"@ != "secret_ref"@,
        "prefix"@ != "secret_ref"@,
{
    reveal_strlit("header");
    reveal_strlit("prefix");
    reveal_strlit("secret_ref");
    assert("header"@.len() == 6 && "prefix"@.len() == 6 && "secret_ref"@.len() == 10);
    assert("header"@[0] == 'h' && "prefix"@[0] == 'p');
}

/// Header names are case-insensitive: the key under which the secret is
/// injected is the lowercase form of the configured header name, whatever its
/// casing. So two configurations that differ only in their header names, and
/// whose header names have the same lowercase form, leave the same outbound
/// headers for every answer of the secret store.
pub proof fn lemma_header_name_case_is_ignored(
    config: Map<Seq<char>, Seq<char>>,
    first: Seq<char>,
    second: Seq<char>,
    headers: Map<Seq<char>, Seq<char>>,
    lookup: SecretLookupView,
)
    ensures
        ApiKeyAuthPlugin.completed(config.insert("header"@, first), headers, lookup) matches Ok(
            injected,
        ) ==> {
            &&& injected.contains_key(lowercase(first))
            &&& injected.dom() == headers.dom().insert(lowercase(first))
            &&& forall|name: Seq<char>|
                name != lowercase(first) && headers.contains_key(name) ==> injected[name]
                    == headers[name]
        },
        lowercase(first) == lowercase(second) ==> ApiKeyAuthPlugin.completed(
            config.insert("header"@, first),
            headers,
            lookup,
        ) == ApiKeyAuthPlugin.completed(config.insert("header"@, second), headers, lookup),
{
    lemma_config_keys_differ();
}

/// The `cred://` scheme is optional: a reference that does not itself start
/// with `cred://` names the same secret with the scheme in front as without
/// it. The plugin asks the secret store for the same name either way, and
/// for the same stored secret the injected headers are identical.
pub proof fn lemma_cred_scheme_is_optional(
    config: Map<Seq<char>, Seq<char>>,
    name: Seq<char>,
    headers: Map<Seq<char>, Seq<char>>,
    secret: Seq<u8>,
)
    requires
        strip_prefix_spec(name, SECRET_REF_SCHEME@) is None,
    ensures
        secret_name(SECRET_REF_SCHEME@ + name) == name,
        secret_name(name) == name,
        ApiKeyAuthPlugin.started(config.insert("secret_ref"@, SECRET_REF_SCHEME@ + name), headers)
            == ApiKeyAuthPlugin.started(config.insert("secret_ref"@, name), headers),
        ApiKeyAuthPlugin.completed(
            config.insert("secret_ref"@, SECRET_REF_SCHEME@ + name),
            headers,
            SecretLookupView::Found(secret),
        ) == ApiKeyAuthPlugin.completed(
            config.insert("secret_ref"@, name),
            headers,
            SecretLookupView::Found(secret),
        ),
{
    lemma_strip_prefix_restores(SECRET_REF_SCHEME@, name);
    lemma_config_keys_differ();
}

/// A secret that is not well-formed UTF-8 is never injected, not even in
/// part: the plugin fails with an `Internal` error and the headers stay as
/// they were.
pub proof fn lemma_binary_secret_is_refused(
    config: Map<Seq<char>, Seq<char>>,
    headers: Map<Seq<char>, Seq<char>>,
    secret: Seq<u8>,
)
    requires
        utf8_text(secret) is None,
    ensures
        ApiKeyAuthPlugin.completed(config, headers, SecretLookupView::Found(secret)) matches Err(
            error,
        ) && error.kind == PluginErrorKind::Internal,
        parsed_config(config) is Ok ==> ApiKeyAuthPlugin.completed(
            config,
            headers,
            SecretLookupView::Found(secret),
        ) == Err::<Map<Seq<char>, Seq<char>>, PluginErrorView>(
            PluginErrorView::internal("secret value is not valid UTF-8"@),
        ),
{
}

} // verus!
