//! Whole-file integrity digests (SHA-256) and their comparison.
use vstd::prelude::*;
use sha2::Digest;

use crate::error::TransferError;

verus! {

/// Length in bytes of a digest.
pub const DIGEST_LEN: usize = 32;

/// The SHA-256 digest of `b`.
pub uninterp spec fn sha256_of(b: Seq<u8>) -> Seq<u8>;

/// Relies on `sha2::Sha256::digest` (the `Digest` trait of sha2 0.10): the
/// 32-byte SHA-256 hash of the input, which depends on the input bytes alone.
#[verifier::external_body]
fn sha256(b: &[u8]) -> (r: Vec<u8>)
    ensures
        r@ == sha256_of(b@),
        r@.len() == DIGEST_LEN,
{
    sha2::Sha256::digest(b).to_vec()
}

/// The digest of `bytes`.
pub fn digest(bytes: &[u8]) -> (r: Vec<u8>)
    ensures
        r@ == sha256_of(bytes@),
        r@.len() == DIGEST_LEN,
{
    sha256(bytes)
}

/// Outcome of comparing a computed digest with the expected one.
pub open spec fn check_spec(actual: Seq<u8>, expected: Seq<u8>) -> Result<(), TransferError> {
    if actual == expected {
        Ok(())
    } else {
        Err(TransferError::IntegrityMismatch)
    }
}

/// Compares a digest that was computed with the one that was expected.
pub fn check_digest(actual: &[u8], expected: &[u8]) -> (r: Result<(), TransferError>)
    ensures
        r == check_spec(actual@, expected@),
{
    if actual.len() != expected.len() {
        return Err(TransferError::IntegrityMismatch);
    }
    let mut i: usize = 0;
    while i < actual.len()
        invariant
            actual@.len() == expected@.len(),
            i <= actual@.len(),
            forall|j: int| 0 <= j < i ==> actual@[j] == expected@[j],
        decreases actual@.len() - i,
    {
        if actual[i] != expected[i] {
            return Err(TransferError::IntegrityMismatch);
        }
        i = i + 1;
    }
    assert(actual@ =~= expected@);
    Ok(())
}

/// Recomputes the digest of `bytes` and fails with `IntegrityMismatch` unless
/// it equals `expected`.
pub fn verify(bytes: &[u8], expected: &[u8]) -> (r: Result<(), TransferError>)
    ensures
        r == check_spec(sha256_of(bytes@), expected@),
{
    let actual = digest(bytes);
    check_digest(actual.as_slice(), expected)
}

/// Digesting is deterministic: equal inputs have equal digests, so bytes
/// always verify against their own digest.
pub proof fn lemma_digest_deterministic(a: Seq<u8>, b: Seq<u8>)
    requires
        a == b,
    ensures
        sha256_of(a) == sha256_of(b),
        check_spec(sha256_of(a), sha256_of(b)) == Ok::<(), TransferError>(()),
{
}

} // verus!
