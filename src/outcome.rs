use vstd::prelude::*;
use vstd::bytes::{spec_u64_to_le_bytes, u64_to_le_bytes};
use crate::address::Address;

verus! {

/// The SHA-256 digest of `data`.
pub uninterp spec fn sha256_of(data: Seq<u8>) -> Seq<u8>;

/// The bytes hashed to settle a flip: the timestamp as eight little-endian bytes,
/// then the caller's identity.
pub open spec fn outcome_input(unix_timestamp: i64, user: Seq<u8>) -> Seq<u8> {
    spec_u64_to_le_bytes(unix_timestamp as u64) + user
}

/// The outcome bit of a flip: the first digest byte, modulo 2 (0 is heads, 1 is tails).
pub open spec fn outcome_of(unix_timestamp: i64, user: Seq<u8>) -> u8 {
    (sha256_of(outcome_input(unix_timestamp, user))[0] % 2) as u8
}

/// Relies on `solana_program::hash::hash`: the SHA-256 digest of `data`,
/// which depends on `data` alone.
#[verifier::external_body]
pub(crate) fn sha256(data: &[u8]) -> (r: [u8; 32])
    ensures
        r@ == sha256_of(data@),
{
    anchor_lang::solana_program::hash::hash(data).to_bytes()
}

/// Computes the outcome bit of a flip made by `user` at `unix_timestamp`.
///
/// This is not a secure source of randomness: both inputs are public, and a caller
/// who can choose when the flip lands can predict it.
pub fn coin_outcome(unix_timestamp: i64, user: &Address) -> (r: u8)
    ensures
        r == outcome_of(unix_timestamp, user@),
        r < 2,
{
    let mut data = u64_to_le_bytes(unix_timestamp as u64);
    let ghost prefix = data@;
    let mut i: usize = 0;
    while i < 32
        invariant
            0 <= i <= 32,
            user@.len() == 32,
            prefix == spec_u64_to_le_bytes(unix_timestamp as u64),
            data@ == prefix + user@.subrange(0, i as int),
        decreases 32 - i,
    {
        data.push(user.bytes[i]);
        i = i + 1;
        assert(data@ =~= prefix + user@.subrange(0, i as int));
    }
    assert(user@.subrange(0, 32) =~= user@);
    let digest = sha256(data.as_slice());
    assert(digest@.len() == 32);
    digest[0] % 2
}

} // verus!
