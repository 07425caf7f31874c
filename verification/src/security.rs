//! The identity on whose behalf a call is made.

use vstd::prelude::*;

verus! {

/// Who drives a call: the subject and the tenant it belongs to.
///
/// Policy decisions and secret lookups are scoped by it.
#[derive(Clone, Copy, Debug, PartialEq, Eq, Structural)]
pub struct SecurityContext {
    /// The subject's home tenant.
    pub subject_tenant_id: u128,
    /// The user, service or system that makes the call.
    pub subject_id: u128,
}

impl SecurityContext {
    /// The context of `subject_id`, a subject of tenant `subject_tenant_id`.
    pub fn new(subject_tenant_id: u128, subject_id: u128) -> (ctx: Self)
        ensures
            ctx.subject_tenant_id == subject_tenant_id,
            ctx.subject_id == subject_id,
    {
        SecurityContext { subject_tenant_id, subject_id }
    }

    /// The context of an unauthenticated caller: no tenant and no subject.
    pub fn anonymous() -> (ctx: Self)
        ensures
            ctx.subject_tenant_id == 0,
            ctx.subject_id == 0,
    {
        SecurityContext { subject_tenant_id: 0, subject_id: 0 }
    }
}

} // verus!
