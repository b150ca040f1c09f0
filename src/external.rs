use vstd::prelude::*;

verus! {

/// Relies on `uuid::Uuid::new_v4`: a random UUID whose version field is 4 and
/// whose variant bits are those of RFC 4122, read as a big-endian `u128`.
#[verifier::external_body]
pub(crate) fn new_v4_uuid() -> (r: u128)
    ensures
        (r >> 76u128) & 0xfu128 == 4,
        (r >> 62u128) & 0x3u128 == 2,
{
    uuid::Uuid::new_v4().as_u128()
}

} // verus!
