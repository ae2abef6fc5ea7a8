use vstd::prelude::*;

verus! {

/// A 128-bit identifier in random-version form: the version nibble
/// reads 4 and the variant bits read binary 10. The remaining 122 bits
/// carry the randomness that makes collisions overwhelmingly unlikely.
pub open spec fn is_version4(id: u128) -> bool {
    &&& (id >> 76) & 0xf == 4
    &&& (id >> 62) & 0x3 == 2
}

/// Relies on `uuid::Uuid::new_v4` and `uuid::Uuid::as_u128`: a freshly
/// drawn random identifier, masked so that the version nibble is 4 and
/// the variant bits are binary 10, returned big-endian as one `u128`.
/// The value is random: nothing else is promised of it, and two calls
/// may in principle return anything the mask allows.
#[verifier::external_body]
fn new_v4_id() -> (r: u128)
    ensures
        is_version4(r),
{
    uuid::Uuid::new_v4().as_u128()
}

/// Draw the identifier for one capture: fresh per request, never
/// derived from the request, unique across the process lifetime with
/// overwhelming probability (122 random bits). No uniqueness check is
/// made against storage.
pub fn fresh_capture_id() -> (r: u128)
    ensures
        is_version4(r),
{
    new_v4_id()
}

} // verus!
