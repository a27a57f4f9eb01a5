//! The boundary to `uuid`: where connection identifiers come from.

use uuid::Uuid;
use vstd::prelude::*;

verus! {

/// Whether `id` has the layout of a random (version 4) UUID: the version
/// field holds 4 and the variant field holds binary 10.
pub open spec fn is_random_uuid(id: u128) -> bool {
    id & 0x0000_0000_0000_f000_c000_0000_0000_0000u128
        == 0x0000_0000_0000_4000_8000_0000_0000_0000u128
}

/// `Uuid::new_v4`, read as a 128-bit number by `Uuid::as_u128`. The bits come
/// from the operating system's random source, so two calls need not agree;
/// every outcome has the version and variant fields of a random UUID. Not
/// proved. `new_v4` panics if the operating system cannot supply random
/// bytes.
#[verifier::external_body]
pub(crate) fn random_uuid() -> (id: u128)
    ensures
        is_random_uuid(id),
{
    Uuid::new_v4().as_u128()
}

} // verus!
