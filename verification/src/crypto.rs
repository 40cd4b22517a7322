//! The hash functions and address derivation that the protocol takes from
//! the Solana program library.

use vstd::prelude::*;

verus! {

/// The Keccak-256 digest of a byte string, as computed by
/// `solana_program::keccak`.
pub uninterp spec fn keccak256(data: Seq<u8>) -> Seq<u8>;

/// The SHA-256 digest of a byte string, as computed by
/// `solana_program::hash`.
pub uninterp spec fn sha256(data: Seq<u8>) -> Seq<u8>;

/// The program-derived address searched for one seed under a program id,
/// as `Pubkey::try_find_program_address` computes it: `None` when no bump
/// seed yields a valid address (or the seed is invalid).
pub uninterp spec fn program_address(seed: Seq<u8>, program_id: Seq<u8>) -> Option<Seq<u8>>;

/// Calls `anchor_lang::solana_program::keccak::hash`. Trusted to return the
/// digest named by `keccak256` for the bytes it is given, and nothing more.
#[verifier::external_body]
pub(crate) fn keccak_hash(data: &[u8]) -> (digest: [u8; 32])
    ensures
        digest@ == keccak256(data@),
{
    #[allow(deprecated)]
    let h = anchor_lang::solana_program::keccak::hash(data);
    h.to_bytes()
}

/// Calls `anchor_lang::solana_program::hash::hash` (SHA-256). Trusted to
/// return the digest named by `sha256` for the bytes it is given.
#[verifier::external_body]
pub(crate) fn sha256_hash(data: &[u8]) -> (digest: [u8; 32])
    ensures
        digest@ == sha256(data@),
{
    anchor_lang::solana_program::hash::hash(data).to_bytes()
}

/// Calls `Pubkey::try_find_program_address` with the single seed `seed`
/// and returns the address found, if any (the bump seed it also finds is
/// not used here). Trusted to return exactly what `program_address` names
/// for the seed and program id: the address when it names one, `None` when
/// it names none. The outside function never panics.
#[verifier::external_body]
pub(crate) fn find_program_address(seed: &[u8], program_id: &[u8; 32]) -> (address: Option<[u8; 32]>)
    ensures
        match address {
            Some(a) => program_address(seed@, program_id@) == Some(a@),
            None => program_address(seed@, program_id@) is None,
        },
{
    let program = anchor_lang::prelude::Pubkey::new_from_array(*program_id);
    match anchor_lang::prelude::Pubkey::try_find_program_address(&[seed], &program) {
        Some((found, _bump)) => Some(found.to_bytes()),
        None => None,
    }
}

} // verus!
