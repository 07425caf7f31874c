//! Fresh identifiers for the entities of the registry.

use vstd::prelude::*;

verus! {

/// Whether `id`, read as a UUID, carries the version and variant marks of a
/// random (version 4) UUID.
pub open spec fn is_random_uuid(id: u128) -> bool {
    id & 0xF000_C000_0000_0000_0000u128 == 0x4000_8000_0000_0000_0000u128
}

/// Calls `uuid::Uuid::new_v4` and hands the UUID back as a number, most
/// significant byte first, as `uuid::Uuid::as_u128` gives it.
///
/// Trusted: whatever bits the operating system's random source supplies,
/// the UUID carries version 4 and the RFC variant. Nothing is said of the
/// other bits; two calls may or may not differ. The call does not return
/// when the operating system cannot supply random bytes.
#[verifier::external_body]
pub(crate) fn random_id() -> (id: u128)
    ensures
        is_random_uuid(id),
{
    uuid::Uuid::new_v4().as_u128()
}

} // verus!
