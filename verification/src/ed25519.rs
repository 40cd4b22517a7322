//! Confirms that a transaction carries an Ed25519 verify instruction over a
//! given signer and message.
//!
//! The Ed25519 native program lays out a self-contained verify instruction
//! as a one-byte signature count, a padding byte, and a 14-byte offsets
//! block (signature offset and instruction index, public-key offset and
//! instruction index, message offset, message size and message instruction
//! index, each a little-endian `u16`), followed by the public key,
//! signature and message at the offsets the block names. The runtime has
//! already checked the signature of every such instruction before this code
//! runs, so only the public key and message need comparing.

use vstd::prelude::*;
use crate::bytes::{bytes_eq, keys_eq, Address};
use crate::error::MagicsError;

verus! {

/// Program id of the Ed25519 native program,
/// `Ed25519SigVerify111111111111111111111111111`.
pub const ED25519_PROGRAM_ID: Address = [
    3, 125, 70, 214, 124, 147, 251, 190, 18, 249, 66, 143, 131, 141, 64, 255,
    5, 112, 116, 73, 39, 244, 138, 100, 252, 202, 112, 68, 128, 0, 0, 0,
];

/// Instruction index meaning "this very instruction".
pub const SELF_REF: u16 = 0xffff;

/// Length of the header this check reads: count, padding, one offsets block.
pub const HEADER_END: usize = 16;

/// One instruction of the running transaction, as the instructions sysvar
/// reports it: the program it targets and its data.
pub struct LoadedInstruction {
    pub program_id: Address,
    pub data: Vec<u8>,
}

/// The little-endian `u16` stored at `at` and `at + 1`.
pub open spec fn u16_le_at(d: Seq<u8>, at: int) -> int {
    d[at] as int + 256 * (d[at + 1] as int)
}

/// An instruction index that points at the instruction holding it.
pub open spec fn references_self(idx: int, this_index: int) -> bool {
    idx == SELF_REF as int || idx == this_index
}

/// What checking one Ed25519 instruction's data yields: an error when the
/// header is short or an offset runs past the data, `Ok(false)` when the
/// instruction holds other than one signature or names another instruction
/// for its signature, key or message, and otherwise whether its public key
/// and message are exactly the expected ones.
pub open spec fn signer_and_message_match(
    data: Seq<u8>,
    this_index: int,
    signer: Seq<u8>,
    message: Seq<u8>,
) -> Result<bool, MagicsError> {
    if data.len() < HEADER_END {
        Err(MagicsError::MalformedEd25519Instruction)
    } else if data[0] != 1 {
        Ok(false)
    } else if !references_self(u16_le_at(data, 4), this_index)
        || !references_self(u16_le_at(data, 8), this_index)
        || !references_self(u16_le_at(data, 14), this_index) {
        Ok(false)
    } else {
        let pk = u16_le_at(data, 6);
        let mo = u16_le_at(data, 10);
        let ms = u16_le_at(data, 12);
        if pk + 32 > data.len() || mo + ms > data.len() {
            Err(MagicsError::MalformedEd25519Instruction)
        } else {
            Ok(data.subrange(pk, pk + 32) == signer && data.subrange(mo, mo + ms) == message)
        }
    }
}

/// What scanning the instructions from index `from` on yields: the first
/// Ed25519 instruction whose check errs or matches decides; with none,
/// the verify instruction is missing.
pub open spec fn scan_for_signature(
    ixs: Seq<LoadedInstruction>,
    signer: Seq<u8>,
    message: Seq<u8>,
    from: int,
) -> Result<(), MagicsError>
    decreases ixs.len() - from,
{
    if from >= ixs.len() || from < 0 {
        Err(MagicsError::MissingEd25519Instruction)
    } else if ixs[from].program_id@ != ED25519_PROGRAM_ID@ {
        scan_for_signature(ixs, signer, message, from + 1)
    } else {
        match signer_and_message_match(ixs[from].data@, from, signer, message) {
            Err(e) => Err(e),
            Ok(true) => Ok(()),
            Ok(false) => scan_for_signature(ixs, signer, message, from + 1),
        }
    }
}

/// Reads the little-endian `u16` at `at`.
fn read_u16(data: &[u8], at: usize) -> (v: u16)
    requires
        at + 1 < data@.len(),
    ensures
        v as int == u16_le_at(data@, at as int),
{
    let lo = data[at] as u16;
    let hi = data[at + 1] as u16;
    hi * 256 + lo
}

/// Checks one Ed25519 instruction's data (see
/// [`signer_and_message_match`]).
pub fn matches_signer_and_message(
    data: &[u8],
    this_index: u16,
    expected_signer: &Address,
    expected_message: &[u8],
) -> (r: Result<bool, MagicsError>)
    ensures
        r == signer_and_message_match(data@, this_index as int, expected_signer@, expected_message@),
{
    if data.len() < HEADER_END {
        return Err(MagicsError::MalformedEd25519Instruction);
    }
    if data[0] != 1 {
        return Ok(false);
    }
    let sig_ix = read_u16(data, 4);
    let pk_ix = read_u16(data, 8);
    let msg_ix = read_u16(data, 14);
    let sig_self = sig_ix == SELF_REF || sig_ix == this_index;
    let pk_self = pk_ix == SELF_REF || pk_ix == this_index;
    let msg_self = msg_ix == SELF_REF || msg_ix == this_index;
    if !sig_self || !pk_self || !msg_self {
        return Ok(false);
    }
    let pk_offset = read_u16(data, 6) as usize;
    let msg_offset = read_u16(data, 10) as usize;
    let msg_size = read_u16(data, 12) as usize;
    let pk_end = pk_offset + 32;
    let msg_end = msg_offset + msg_size;
    if pk_end > data.len() || msg_end > data.len() {
        return Err(MagicsError::MalformedEd25519Instruction);
    }
    let signer_matches = bytes_eq(&data[pk_offset..pk_end], expected_signer.as_slice());
    let message_matches = bytes_eq(&data[msg_offset..msg_end], expected_message);
    Ok(signer_matches && message_matches)
}

/// Confirms that one of `instructions` — the instructions that precede the
/// running one in its transaction, in order — is an Ed25519 verify
/// instruction over `expected_signer` and `expected_message`. The result is
/// exactly [`scan_for_signature`] from the first instruction.
pub fn verify_cast_signature(
    instructions: &Vec<LoadedInstruction>,
    expected_signer: &Address,
    expected_message: &[u8],
) -> (r: Result<(), MagicsError>)
    requires
        instructions@.len() <= u16::MAX,
    ensures
        r == scan_for_signature(instructions@, expected_signer@, expected_message@, 0),
{
    let mut i: usize = 0;
    while i < instructions.len()
        invariant
            instructions@.len() <= u16::MAX,
            0 <= i <= instructions@.len(),
            scan_for_signature(instructions@, expected_signer@, expected_message@, 0)
                == scan_for_signature(instructions@, expected_signer@, expected_message@, i as int),
        decreases instructions@.len() - i,
    {
        let ix = &instructions[i];
        if keys_eq(&ix.program_id, &ED25519_PROGRAM_ID) {
            match matches_signer_and_message(ix.data.as_slice(), i as u16, expected_signer, expected_message) {
                Err(e) => {
                    return Err(e);
                },
                Ok(true) => {
                    return Ok(());
                },
                Ok(false) => {},
            }
        }
        i = i + 1;
    }
    Err(MagicsError::MissingEd25519Instruction)
}

/// An Ed25519 verify instruction at position `i` of `ixs` that carries
/// exactly `signer` and `message`.
pub open spec fn signed_at(ixs: Seq<LoadedInstruction>, i: int, signer: Seq<u8>, message: Seq<u8>) -> bool {
    &&& 0 <= i < ixs.len()
    &&& ixs[i].program_id@ == ED25519_PROGRAM_ID@
    &&& signer_and_message_match(ixs[i].data@, i, signer, message) == Ok::<bool, MagicsError>(true)
}

/// A scan succeeds only on a witness: some Ed25519 instruction at or after
/// `from` carries exactly the expected signer and message.
pub proof fn lemma_scan_ok_has_witness(ixs: Seq<LoadedInstruction>, signer: Seq<u8>, message: Seq<u8>, from: int)
    requires
        from >= 0,
        scan_for_signature(ixs, signer, message, from) is Ok,
    ensures
        exists|i: int| from <= i && #[trigger] signed_at(ixs, i, signer, message),
    decreases ixs.len() - from,
{
    if from < ixs.len() {
        if ixs[from].program_id@ == ED25519_PROGRAM_ID@
            && signer_and_message_match(ixs[from].data@, from, signer, message) == Ok::<bool, MagicsError>(true) {
            assert(signed_at(ixs, from, signer, message));
        } else {
            lemma_scan_ok_has_witness(ixs, signer, message, from + 1);
        }
    }
}

} // verus!
