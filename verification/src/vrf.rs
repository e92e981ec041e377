use vstd::prelude::*;

verus! {

/// What `ephemeral_vrf_sdk::rnd::random_u8_with_range` returns for these
/// 32 bytes and bounds.
pub uninterp spec fn vrf_random_u8_with_range(bytes: Seq<u8>, min_value: u8, max_value: u8) -> u8;

/// Calls `ephemeral_vrf_sdk::rnd::random_u8_with_range`, which maps 32
/// random bytes to a value in `[min_value, max_value]` (both inclusive; it
/// panics when `min_value > max_value`). Its result is a function of the
/// bytes and the bounds alone; which value it picks is not stated here.
#[verifier::external_body]
pub(crate) fn random_u8_with_range(bytes: &[u8; 32], min_value: u8, max_value: u8) -> (r: u8)
    requires
        min_value <= max_value,
    ensures
        r == vrf_random_u8_with_range(bytes@, min_value, max_value),
        min_value <= r <= max_value,
{
    ephemeral_vrf_sdk::rnd::random_u8_with_range(bytes, min_value, max_value)
}

} // verus!
