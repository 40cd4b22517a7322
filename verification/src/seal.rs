//! The seal: a written boundary around a session key.

use vstd::prelude::*;
use vstd::bytes::{spec_u64_to_le_bytes, u64_to_le_bytes};
use crate::bytes::{append_bytes, bytes_eq, Address};
use crate::crypto::{keccak256, keccak_hash};
use crate::domain::i64_le_bytes;

verus! {

/// Domain tag folded into a seal id: `b"magics:seal:v1"`.
pub const SEAL_TAG: [u8; 14] = [109, 97, 103, 105, 99, 115, 58, 115, 101, 97, 108, 58, 118, 49];

/// Whoever holds the secret for `signer` may perform exactly the actions the
/// rest of the seal describes, and never past `expiry`. The selector is the
/// 8-byte instruction discriminator on `target`; all zeroes is the wildcard.
#[derive(Clone, Copy, Debug)]
pub struct Seal {
    /// Ephemeral key that signs cast intents.
    pub signer: Address,
    /// Program the signer may target.
    pub target: Address,
    /// Instruction discriminator on `target`; all zeroes matches every one.
    pub selector: [u8; 8],
    /// Max token amount moved per individual call.
    pub value_cap: u64,
    /// Max token amount moved within any rolling 24h window.
    pub daily_cap: u64,
    /// Unix seconds after which the seal is dead.
    pub expiry: i64,
    /// Unix seconds at mint, stamped by the vault.
    pub created_at: i64,
    /// Opaque tag, usually the target strategy's scope hash.
    pub scope_hash: [u8; 32],
}

/// The bytes hashed into a seal id: the seal tag, the owner, and the
/// boundary fields in declaration order. `created_at` is not among them.
pub open spec fn seal_id_preimage(s: Seal, owner: Seq<u8>) -> Seq<u8> {
    SEAL_TAG@ + owner + s.signer@ + s.target@ + s.selector@
        + spec_u64_to_le_bytes(s.value_cap) + spec_u64_to_le_bytes(s.daily_cap)
        + i64_le_bytes(s.expiry) + s.scope_hash@
}

/// The id of a seal under an owner.
pub open spec fn seal_id_spec(s: Seal, owner: Seq<u8>) -> Seq<u8> {
    keccak256(seal_id_preimage(s, owner))
}

/// The wildcard selector.
pub open spec fn wildcard_selector() -> Seq<u8> {
    Seq::new(8, |i: int| 0u8)
}

/// Two seals agree on every boundary field (all but `created_at`).
pub open spec fn same_boundary(a: Seal, b: Seal) -> bool {
    &&& a.signer == b.signer
    &&& a.target == b.target
    &&& a.selector == b.selector
    &&& a.value_cap == b.value_cap
    &&& a.daily_cap == b.daily_cap
    &&& a.expiry == b.expiry
    &&& a.scope_hash == b.scope_hash
}

impl Seal {
    /// Deterministic id for this seal under `owner`: Keccak-256 over the
    /// seal tag, the owner and the boundary fields.
    pub fn id(&self, owner: &Address) -> (r: [u8; 32])
        ensures
            r@ == seal_id_spec(*self, owner@),
    {
        let mut pre: Vec<u8> = Vec::with_capacity(14 + 32 + 32 + 32 + 8 + 8 + 8 + 8 + 32);
        append_bytes(&mut pre, SEAL_TAG.as_slice());
        append_bytes(&mut pre, owner.as_slice());
        append_bytes(&mut pre, self.signer.as_slice());
        append_bytes(&mut pre, self.target.as_slice());
        append_bytes(&mut pre, self.selector.as_slice());
        let v = u64_to_le_bytes(self.value_cap);
        append_bytes(&mut pre, v.as_slice());
        let d = u64_to_le_bytes(self.daily_cap);
        append_bytes(&mut pre, d.as_slice());
        let e = u64_to_le_bytes(self.expiry as u64);
        append_bytes(&mut pre, e.as_slice());
        append_bytes(&mut pre, self.scope_hash.as_slice());
        keccak_hash(pre.as_slice())
    }

    /// True if `now` falls inside the seal's lifetime window.
    pub fn is_live(&self, now: i64) -> (r: bool)
        ensures
            r == (self.created_at <= now && now < self.expiry),
    {
        now < self.expiry && now >= self.created_at
    }

    /// True if `selector` is permitted: the wildcard matches anything,
    /// otherwise an exact match is required.
    pub fn permits_selector(&self, selector: &[u8; 8]) -> (r: bool)
        ensures
            r == (self.selector@ == wildcard_selector() || self.selector@ == selector@),
    {
        let zero: [u8; 8] = [0u8; 8];
        assert(zero@ =~= wildcard_selector());
        bytes_eq(self.selector.as_slice(), zero.as_slice()) || bytes_eq(
            self.selector.as_slice(),
            selector.as_slice(),
        )
    }
}

/// The id hashes the boundary fields only: two seals that differ at most in
/// `created_at` have the same id under the same owner, so a client can name
/// a seal's record before the vault stamps it.
pub proof fn lemma_seal_id_ignores_created_at(a: Seal, b: Seal, owner: Seq<u8>)
    requires
        same_boundary(a, b),
    ensures
        seal_id_spec(a, owner) == seal_id_spec(b, owner),
{
    assert(seal_id_preimage(a, owner) == seal_id_preimage(b, owner));
}

} // verus!
