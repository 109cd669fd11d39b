//! Identifiers: 128-bit universally unique values, held as `u128` (the
//! big-endian reading of their 16 bytes).
use vstd::prelude::*;

verus! {

/// The identifier that no row is ever given.
pub const NIL_ID: u128 = 0;

/// `id` carries the version (4, random) and variant (RFC 9562) bits of a
/// randomly generated identifier.
pub open spec fn is_random_id(id: u128) -> bool {
    &&& id & 0xf000_0000_0000_0000_0000 == 0x4000_0000_0000_0000_0000
    &&& id & 0xc000_0000_0000_0000 == 0x8000_0000_0000_0000
}

/// Relies on `uuid::Uuid::new_v4` and `Uuid::as_u128`: a fresh random
/// identifier whose version nibble is 4 and whose variant bits are `10`.
#[verifier::external_body]
pub(crate) fn new_id() -> (r: u128)
    ensures
        is_random_id(r),
{
    uuid::Uuid::new_v4().as_u128()
}

/// A randomly generated identifier is never the nil identifier.
pub proof fn lemma_random_id_not_nil(id: u128)
    requires
        is_random_id(id),
    ensures
        id != NIL_ID,
{
    assert(id & 0xf000_0000_0000_0000_0000 == 0x4000_0000_0000_0000_0000 ==> id != 0) by (bit_vector);
}

} // verus!
