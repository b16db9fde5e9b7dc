//! Identifiers of users and game events: random (version 4) UUIDs, held as
//! the 128-bit big-endian integer that `uuid::Uuid::as_u128` gives.
use vstd::prelude::*;

verus! {

/// The bits that mark a UUID as version 4 (random) with the RFC 4122 variant:
/// the version nibble (bits 76..80) is 4 and the two variant bits (62..64) are `10`.
pub open spec fn is_random_uuid(id: u128) -> bool {
    id & 0xF000_C000_0000_0000_0000u128 == 0x4000_8000_0000_0000_0000u128
}

/// Calls `uuid::Uuid::new_v4` and reads the result with `Uuid::as_u128`.
/// The bits are drawn from the operating system's random source, so nothing is
/// claimed of them but the version and variant bits that `new_v4` sets
/// (it masks the random value with `0xFFFFFFFFFFFF4FFFBFFFFFFFFFFFFFFF` and
/// ORs in `0x40008000000000000000`). Two calls may give anything.
#[verifier::external_body]
pub(crate) fn new_random_id() -> (id: u128)
    ensures
        is_random_uuid(id),
{
    uuid::Uuid::new_v4().as_u128()
}

} // verus!
