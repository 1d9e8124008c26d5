//! Checksum verification of downloaded artifacts.

use vstd::prelude::*;

use crate::error::ProvisionError;
use crate::text::{ascii_lower, to_ascii_lower};

verus! {

/// The SHA-256 digest of `data` in lower-case hexadecimal, as sha2 computes it.
pub uninterp spec fn sha256_hex(data: Seq<u8>) -> Seq<char>;

/// Relies on `sha2::Sha256::digest` for the digest, rendered with `{:x}` as
/// lower-case hexadecimal.
#[verifier::external_body]
fn sha256_hex_digest(data: &[u8]) -> (r: String)
    ensures
        r@ == sha256_hex(data@),
{
    format!("{:x}", <sha2::Sha256 as sha2::Digest>::digest(data))
}

/// Two checksums in hexadecimal agree when they are equal up to the case of
/// ASCII letters.
pub open spec fn same_checksum(a: Seq<char>, b: Seq<char>) -> bool {
    &&& a.len() == b.len()
    &&& forall|i: int| 0 <= i < a.len() ==> ascii_lower(#[trigger] a[i]) == ascii_lower(b[i])
}

/// Compares two hexadecimal checksums, ignoring the case of letters.
pub fn checksum_matches(actual: &str, expected: &str) -> (r: bool)
    ensures
        r == same_checksum(actual@, expected@),
{
    let n = actual.unicode_len();
    if n != expected.unicode_len() {
        return false;
    }
    let mut i: usize = 0;
    while i < n
        invariant
            n == actual@.len(),
            n == expected@.len(),
            i <= n,
            forall|k: int| 0 <= k < i ==> ascii_lower(#[trigger] actual@[k]) == ascii_lower(expected@[k]),
        decreases n - i,
    {
        if to_ascii_lower(actual.get_char(i)) != to_ascii_lower(expected.get_char(i)) {
            return false;
        }
        i = i + 1;
    }
    true
}

/// Checks downloaded bytes against the expected digest, given the digest
/// that was computed: `Integrity` with both digests when they differ.
pub fn check_digest(actual: String, expected: &str) -> (r: Result<(), ProvisionError>)
    ensures
        same_checksum(actual@, expected@) ==> r is Ok,
        !same_checksum(actual@, expected@) ==> (r matches Err(
            ProvisionError::Integrity { expected: e, actual: a },
        ) && e@ == expected@ && a@ == actual@),
{
    if checksum_matches(actual.as_str(), expected) {
        Ok(())
    } else {
        Err(ProvisionError::Integrity { expected: String::from_str(expected), actual })
    }
}

/// Verifies an artifact against its expected SHA-256 checksum. A mismatch
/// is an `Integrity` error; the caller then discards the file.
pub fn verify_artifact(data: &[u8], expected: &str) -> (r: Result<(), ProvisionError>)
    ensures
        same_checksum(sha256_hex(data@), expected@) ==> r is Ok,
        !same_checksum(sha256_hex(data@), expected@) ==> (r matches Err(
            ProvisionError::Integrity { expected: e, actual: a },
        ) && e@ == expected@ && a@ == sha256_hex(data@)),
{
    let actual = sha256_hex_digest(data);
    check_digest(actual, expected)
}

} // verus!
