//! The signed cast message and the domain pieces folded into it.

use vstd::prelude::*;
use vstd::bytes::{spec_u64_to_le_bytes, u64_to_le_bytes, lemma_auto_spec_u64_to_from_le_bytes, spec_u64_from_le_bytes};
use crate::bytes::{append_bytes, Address};
use crate::crypto::{keccak256, keccak_hash};

verus! {

/// Protocol name folded into every signed cast: `b"magics"`.
pub const DOMAIN_NAME: [u8; 6] = [109, 97, 103, 105, 99, 115];

/// Protocol version folded into every signed cast: `b"1"`.
pub const DOMAIN_VERSION: [u8; 1] = [49];

/// Tag that opens every signed cast: `b"magics:cast:v1"`.
pub const CAST_TAG: [u8; 14] = [109, 97, 103, 105, 99, 115, 58, 99, 97, 115, 116, 58, 118, 49];

/// Seed of the router's cast-authority address: `b"cast-authority"`.
pub const CAST_AUTHORITY_SEED: [u8; 14] = [99, 97, 115, 116, 45, 97, 117, 116, 104, 111, 114, 105, 116, 121];

/// Program id of the seal vault, `Hs1WNEErp5rqhy8JvofPzL8UYHFaWj9gRDjofhNqQvhZ`:
/// the verifying program bound into every signed cast.
pub const SEAL_VAULT_ID: Address = [
    250, 138, 154, 144, 44, 87, 222, 99, 15, 4, 30, 188, 1, 5, 38, 29,
    220, 198, 205, 168, 182, 123, 173, 202, 191, 99, 83, 67, 198, 183, 47, 92,
];

/// Keccak-256 over the raw cast payload.
pub fn data_hash(data: &[u8]) -> (h: [u8; 32])
    ensures
        h@ == keccak256(data@),
{
    keccak_hash(data)
}

/// Little-endian bytes of a signed 64-bit value (its two's-complement bits).
pub open spec fn i64_le_bytes(x: i64) -> Seq<u8> {
    spec_u64_to_le_bytes(x as u64)
}

/// The exact bytes a session key signs: the cast tag, the domain name and
/// version, the verifying program, then the agent id, the nonce, the
/// deadline and the payload hash, integers in little-endian order.
pub open spec fn cast_message_spec(
    vault_program: Seq<u8>,
    agent_id: Seq<u8>,
    nonce: u64,
    deadline: i64,
    data_hash: Seq<u8>,
) -> Seq<u8> {
    CAST_TAG@ + DOMAIN_NAME@ + DOMAIN_VERSION@ + vault_program + agent_id
        + spec_u64_to_le_bytes(nonce) + i64_le_bytes(deadline) + data_hash
}

/// Builds the message a session key signs for one cast.
pub fn cast_message(
    vault_program: &Address,
    agent_id: &[u8; 32],
    nonce: u64,
    deadline: i64,
    data_hash: &[u8; 32],
) -> (m: Vec<u8>)
    ensures
        m@ == cast_message_spec(vault_program@, agent_id@, nonce, deadline, data_hash@),
{
    let mut m: Vec<u8> = Vec::with_capacity(14 + 6 + 1 + 32 + 32 + 8 + 8 + 32);
    append_bytes(&mut m, CAST_TAG.as_slice());
    append_bytes(&mut m, DOMAIN_NAME.as_slice());
    append_bytes(&mut m, DOMAIN_VERSION.as_slice());
    append_bytes(&mut m, vault_program.as_slice());
    append_bytes(&mut m, agent_id.as_slice());
    let n = u64_to_le_bytes(nonce);
    append_bytes(&mut m, n.as_slice());
    let d = u64_to_le_bytes(deadline as u64);
    append_bytes(&mut m, d.as_slice());
    append_bytes(&mut m, data_hash.as_slice());
    m
}

/// Every field of a cast is recoverable from its message: two casts whose
/// 32-byte fields are well formed sign the same bytes only if they agree on
/// the program, the agent, the nonce, the deadline and the payload hash.
/// In particular a signature over one nonce never covers another.
pub proof fn lemma_cast_message_injective(
    p1: Seq<u8>, a1: Seq<u8>, n1: u64, d1: i64, h1: Seq<u8>,
    p2: Seq<u8>, a2: Seq<u8>, n2: u64, d2: i64, h2: Seq<u8>,
)
    requires
        p1.len() == 32, a1.len() == 32, h1.len() == 32,
        p2.len() == 32, a2.len() == 32, h2.len() == 32,
        cast_message_spec(p1, a1, n1, d1, h1) == cast_message_spec(p2, a2, n2, d2, h2),
    ensures
        p1 == p2,
        a1 == a2,
        n1 == n2,
        d1 == d2,
        h1 == h2,
{
    lemma_auto_spec_u64_to_from_le_bytes();
    let m1 = cast_message_spec(p1, a1, n1, d1, h1);
    let m2 = cast_message_spec(p2, a2, n2, d2, h2);
    let nb1 = spec_u64_to_le_bytes(n1);
    let nb2 = spec_u64_to_le_bytes(n2);
    let db1 = i64_le_bytes(d1);
    let db2 = i64_le_bytes(d2);
    assert(nb1.len() == 8 && nb2.len() == 8);
    assert(db1.len() == 8 && db2.len() == 8);
    assert(CAST_TAG@.len() == 14 && DOMAIN_NAME@.len() == 6 && DOMAIN_VERSION@.len() == 1);
    assert(m1.subrange(21, 53) =~= p1);
    assert(m2.subrange(21, 53) =~= p2);
    assert(m1.subrange(53, 85) =~= a1);
    assert(m2.subrange(53, 85) =~= a2);
    assert(m1.subrange(85, 93) =~= nb1);
    assert(m2.subrange(85, 93) =~= nb2);
    assert(m1.subrange(93, 101) =~= db1);
    assert(m2.subrange(93, 101) =~= db2);
    assert(m1.subrange(101, 133) =~= h1);
    assert(m2.subrange(101, 133) =~= h2);
    assert(spec_u64_from_le_bytes(nb1) == n1);
    assert(spec_u64_from_le_bytes(nb2) == n2);
    assert(spec_u64_from_le_bytes(db1) == d1 as u64);
    assert(spec_u64_from_le_bytes(db2) == d2 as u64);
    assert(d1 as u64 == d2 as u64 ==> d1 == d2) by (bit_vector);
}

} // verus!
