//! Identifier generation. Entities are keyed by the 128-bit value of a
//! version-4 UUID; the store never assigns identifiers itself.

use vstd::prelude::*;

verus! {

/// Relies on `uuid::Uuid::new_v4` and `Uuid::as_u128`: `new_v4` draws a
/// random UUID and forces the version field to 4 (it ors the 128-bit
/// value with `0x4000_8000_0000_0000_0000` before storing it), so the
/// value read back by `as_u128` is never zero, the nil UUID. Nothing
/// further can be promised of a random draw.
#[verifier::external_body]
pub(crate) fn generate_id() -> (id: u128)
    ensures
        id != 0,
{
    uuid::Uuid::new_v4().as_u128()
}

} // verus!
