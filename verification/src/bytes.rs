//! Byte-level helpers shared by the message builders and parsers.

use vstd::prelude::*;

verus! {

/// A 32-byte public key, program id, or digest.
pub type Address = [u8; 32];

/// The all-zero key, which is what `Pubkey::default()` holds.
pub open spec fn zero_key() -> Seq<u8> {
    Seq::new(32, |i: int| 0u8)
}

/// The all-zero key as a value.
pub fn default_key() -> (k: Address)
    ensures
        k@ == zero_key(),
{
    let k: Address = [0u8; 32];
    assert(k@ =~= zero_key());
    k
}

/// Appends `bytes` to `out`.
pub fn append_bytes(out: &mut Vec<u8>, bytes: &[u8])
    ensures
        final(out)@ == old(out)@ + bytes@,
{
    let mut i: usize = 0;
    while i < bytes.len()
        invariant
            0 <= i <= bytes@.len(),
            out@ == old(out)@ + bytes@.take(i as int),
        decreases bytes@.len() - i,
    {
        out.push(bytes[i]);
        i = i + 1;
        assert(bytes@.take(i as int) =~= bytes@.take(i - 1) + seq![bytes@[i - 1]]);
    }
    assert(bytes@.take(bytes@.len() as int) =~= bytes@);
}

/// True exactly when the two byte strings are equal.
pub fn bytes_eq(a: &[u8], b: &[u8]) -> (r: bool)
    ensures
        r == (a@ == b@),
{
    if a.len() != b.len() {
        return false;
    }
    let mut i: usize = 0;
    while i < a.len()
        invariant
            a@.len() == b@.len(),
            0 <= i <= a@.len(),
            forall|j: int| 0 <= j < i ==> a@[j] == b@[j],
        decreases a@.len() - i,
    {
        if a[i] != b[i] {
            return false;
        }
        i = i + 1;
    }
    assert(a@ =~= b@);
    true
}

/// True exactly when the two keys are equal.
pub fn keys_eq(a: &Address, b: &Address) -> (r: bool)
    ensures
        r == (a@ == b@),
{
    bytes_eq(a.as_slice(), b.as_slice())
}

/// True exactly when `k` is the all-zero key.
pub fn is_default_key(k: &Address) -> (r: bool)
    ensures
        r == (k@ == zero_key()),
{
    let z = default_key();
    keys_eq(k, &z)
}

} // verus!
