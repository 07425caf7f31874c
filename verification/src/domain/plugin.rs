//! Outbound authentication plugins: the capability, its context and its errors.

use crate::security::SecurityContext;
use crate::string_map::StringMap;
use crate::text::{join, strip_prefix, strip_prefix_spec};
use vstd::prelude::*;

verus! {

// ---------------------------------------------------------------------------
// Plugin errors
// ---------------------------------------------------------------------------
/// The kinds of failure an auth plugin reports.
#[derive(Clone, Copy, Debug, PartialEq, Eq, Structural)]
pub enum PluginErrorKind {
    SecretNotFound,
    AuthFailed,
    Rejected,
    Internal,
}

/// Errors returned by auth plugins. Each carries a human-readable detail.
#[derive(Debug)]
pub enum PluginError {
    /// The secret store holds nothing under the configured reference.
    SecretNotFound(String),
    /// The plugin could not authenticate the call.
    AuthFailed(String),
    /// The plugin refused the request.
    Rejected(String),
    /// Malformed configuration, an unusable secret or a failing secret store.
    Internal(String),
}

/// A plugin error as a value of the model: its kind and its detail.
pub struct PluginErrorView {
    pub kind: PluginErrorKind,
    pub detail: Seq<char>,
}

impl PluginErrorView {
    /// An `Internal` error with this detail.
    pub open spec fn internal(detail: Seq<char>) -> PluginErrorView {
        PluginErrorView { kind: PluginErrorKind::Internal, detail }
    }

    /// A `SecretNotFound` error that names this reference.
    pub open spec fn secret_not_found(secret_ref: Seq<char>) -> PluginErrorView {
        PluginErrorView { kind: PluginErrorKind::SecretNotFound, detail: secret_ref }
    }

    /// The text that describes the error.
    pub open spec fn message(self) -> Seq<char> {
        match self.kind {
            PluginErrorKind::SecretNotFound => "secret not found: "@ + self.detail,
            PluginErrorKind::AuthFailed => "authentication failed: "@ + self.detail,
            PluginErrorKind::Rejected => "request rejected: "@ + self.detail,
            PluginErrorKind::Internal => "plugin error: "@ + self.detail,
        }
    }
}

impl View for PluginError {
    type V = PluginErrorView;

    open spec fn view(&self) -> PluginErrorView {
        match self {
            PluginError::SecretNotFound(detail) => PluginErrorView {
                kind: PluginErrorKind::SecretNotFound,
                detail: detail@,
            },
            PluginError::AuthFailed(detail) => PluginErrorView {
                kind: PluginErrorKind::AuthFailed,
                detail: detail@,
            },
            PluginError::Rejected(detail) => PluginErrorView {
                kind: PluginErrorKind::Rejected,
                detail: detail@,
            },
            PluginError::Internal(detail) => PluginErrorView {
                kind: PluginErrorKind::Internal,
                detail: detail@,
            },
        }
    }
}

impl PluginError {
    /// The kind of the error.
    pub fn kind(&self) -> (kind: PluginErrorKind)
        ensures
            kind == self@.kind,
    {
        match self {
            PluginError::SecretNotFound(_) => PluginErrorKind::SecretNotFound,
            PluginError::AuthFailed(_) => PluginErrorKind::AuthFailed,
            PluginError::Rejected(_) => PluginErrorKind::Rejected,
            PluginError::Internal(_) => PluginErrorKind::Internal,
        }
    }

    /// The detail that the error carries.
    pub fn detail(&self) -> (detail: &str)
        ensures
            detail@ == self@.detail,
    {
        match self {
            PluginError::SecretNotFound(detail) => detail.as_str(),
            PluginError::AuthFailed(detail) => detail.as_str(),
            PluginError::Rejected(detail) => detail.as_str(),
            PluginError::Internal(detail) => detail.as_str(),
        }
    }

    /// The text that describes the error.
    pub fn to_string(&self) -> (text: String)
        ensures
            text@ == self@.message(),
    {
        match self {
            PluginError::SecretNotFound(detail) => join("secret not found: ", detail.as_str()),
            PluginError::AuthFailed(detail) => join("authentication failed: ", detail.as_str()),
            PluginError::Rejected(detail) => join("request rejected: ", detail.as_str()),
            PluginError::Internal(detail) => join("plugin error: ", detail.as_str()),
        }
    }

    /// A copy of the error.
    pub fn duplicate(&self) -> (copy: Self)
        ensures
            copy@ == self@,
    {
        match self {
            PluginError::SecretNotFound(detail) => PluginError::SecretNotFound(detail.clone()),
            PluginError::AuthFailed(detail) => PluginError::AuthFailed(detail.clone()),
            PluginError::Rejected(detail) => PluginError::Rejected(detail.clone()),
            PluginError::Internal(detail) => PluginError::Internal(detail.clone()),
        }
    }
}

// ---------------------------------------------------------------------------
// Secret lookups
// ---------------------------------------------------------------------------
/// The scheme that a secret reference may carry in front.
pub const SECRET_REF_SCHEME: &'static str = "cred://";

/// The name under which the secret store knows a secret: the reference
/// without one leading `cred://`. With the scheme and without it, a
/// reference names the same secret.
pub open spec fn secret_name(secret_ref: Seq<char>) -> Seq<char> {
    match strip_prefix_spec(secret_ref, SECRET_REF_SCHEME@) {
        Some(name) => name,
        None => secret_ref,
    }
}

/// The name under which the secret store knows the secret that `secret_ref` refers to.
pub fn normalize_secret_ref(secret_ref: &str) -> (name: String)
    ensures
        name@ == secret_name(secret_ref@),
{
    match strip_prefix(secret_ref, SECRET_REF_SCHEME) {
        Some(name) => name.to_owned(),
        None => secret_ref.to_owned(),
    }
}

/// What the secret store answered to a lookup.
pub enum SecretLookup {
    /// The store holds the secret; these are its bytes.
    Found(Vec<u8>),
    /// The store holds nothing under the reference.
    NotFound,
    /// The store does not accept the reference; the text says why.
    InvalidRef(String),
    /// The store could not be asked or failed; the text says how.
    Failed(String),
}

/// A lookup result as a value of the model.
pub enum SecretLookupView {
    Found(Seq<u8>),
    NotFound,
    InvalidRef(Seq<char>),
    Failed(Seq<char>),
}

impl View for SecretLookup {
    type V = SecretLookupView;

    open spec fn view(&self) -> SecretLookupView {
        match self {
            SecretLookup::Found(bytes) => SecretLookupView::Found(bytes@),
            SecretLookup::NotFound => SecretLookupView::NotFound,
            SecretLookup::InvalidRef(reason) => SecretLookupView::InvalidRef(reason@),
            SecretLookup::Failed(reason) => SecretLookupView::Failed(reason@),
        }
    }
}

// ---------------------------------------------------------------------------
// Auth plugin
// ---------------------------------------------------------------------------
/// Request context passed to an auth plugin for header injection.
///
/// Built fresh for each proxied call and dropped once the call is dispatched.
pub struct AuthContext {
    /// Outbound request headers, which the plugin changes in place.
    pub headers: StringMap<String>,
    /// Plugin-specific configuration key/value pairs.
    pub config: StringMap<String>,
    /// Security context of the calling subject.
    pub security_context: SecurityContext,
}

/// How far a plugin got with the context it was first handed.
pub enum AuthProgress {
    /// The plugin is done; these are the outbound headers.
    Done(Map<Seq<char>, Seq<char>>),
    /// The plugin needs the secret stored under this reference.
    NeedsSecret(Seq<char>),
}

/// Outbound authentication: a plugin injects authentication material, such
/// as an API key or a bearer token, into the headers of the outbound request.
///
/// A plugin never looks a secret up itself. `authenticate` either finishes or
/// names the secret it needs; `complete` finishes with what the secret store
/// answered. A plugin changes nothing of the context but its headers.
pub trait AuthPlugin {
    /// What `authenticate` does with a configuration and the headers so far.
    spec fn started(
        &self,
        config: Map<Seq<char>, Seq<char>>,
        headers: Map<Seq<char>, Seq<char>>,
    ) -> Result<AuthProgress, PluginErrorView>;

    /// The headers that `complete` leaves for an answer of the secret store.
    spec fn completed(
        &self,
        config: Map<Seq<char>, Seq<char>>,
        headers: Map<Seq<char>, Seq<char>>,
        lookup: SecretLookupView,
    ) -> Result<Map<Seq<char>, Seq<char>>, PluginErrorView>;

    /// Applies authentication to the outbound request context, as far as that
    /// is possible without a secret: `Ok(None)` when the plugin is done,
    /// `Ok(Some(reference))` when it needs the secret stored under `reference`.
    fn authenticate(&self, ctx: &mut AuthContext) -> (pending: Result<Option<String>, PluginError>)
        ensures
            final(ctx).config@ == old(ctx).config@,
            final(ctx).security_context == old(ctx).security_context,
            match self.started(old(ctx).config@, old(ctx).headers@) {
                Ok(AuthProgress::Done(headers)) => pending == Ok::<Option<String>, PluginError>(
                    None,
                ) && final(ctx).headers@ == headers,
                Ok(AuthProgress::NeedsSecret(reference)) => {
                    &&& pending matches Ok(Some(wanted))
                    &&& wanted@ == reference
                    &&& final(ctx).headers@ == old(ctx).headers@
                },
                Err(error) => {
                    &&& pending matches Err(e)
                    &&& e@ == error
                    &&& final(ctx).headers@ == old(ctx).headers@
                },
            },
    ;

    /// Finishes authentication with the answer of the secret store.
    fn complete(&self, ctx: &mut AuthContext, lookup: SecretLookup) -> (done: Result<
        (),
        PluginError,
    >)
        ensures
            final(ctx).config@ == old(ctx).config@,
            final(ctx).security_context == old(ctx).security_context,
            match self.completed(old(ctx).config@, old(ctx).headers@, lookup@) {
                Ok(headers) => done is Ok && final(ctx).headers@ == headers,
                Err(error) => {
                    &&& done matches Err(e)
                    &&& e@ == error
                    &&& final(ctx).headers@ == old(ctx).headers@
                },
            },
    ;
}

} // verus!
