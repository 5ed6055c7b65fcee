//! Identifiers of records: 128-bit values drawn at random.

use vstd::prelude::*;

verus! {

/// The marks of a randomly drawn identifier, read on its big-endian value:
/// the version nibble is 4 and the two variant bits are `10`. The other 122
/// bits are free.
pub open spec fn is_random_id(id: u128) -> bool {
    (id >> 76u128) & 0xfu128 == 4u128 && (id >> 62u128) & 0x3u128 == 2u128
}

/// Draws an identifier: `uuid::Uuid::new_v4()`, as its big-endian 128-bit
/// value. Nothing is proved of it. The contract claims what the uuid crate
/// does to every value it draws: it sets the version to 4 and the variant to
/// that of RFC 4122. It does not claim that two draws differ. The uuid crate
/// panics where the operating system hands out no random bytes.
#[verifier::external_body]
pub(crate) fn fresh_id() -> (id: u128)
    ensures
        is_random_id(id),
{
    uuid::Uuid::new_v4().as_u128()
}

} // verus!
