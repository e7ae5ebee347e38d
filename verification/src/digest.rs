//! SHA-256 digests, computed by the `sha2` crate and written in lowercase
//! hexadecimal.

use sha2::{Digest, Sha256};
use vstd::prelude::*;

verus! {

/// The SHA-256 digest of a byte string, as 64 lowercase hexadecimal digits.
pub uninterp spec fn sha256_hex(data: Seq<u8>) -> Seq<char>;

/// A lowercase hexadecimal digit.
pub open spec fn is_lower_hex(c: char) -> bool {
    ('0' <= c && c <= '9') || ('a' <= c && c <= 'f')
}

/// Hashes bytes with `sha2::Sha256::digest` and writes the 32-byte digest
/// as two lowercase hexadecimal digits per byte. The claim: the result is
/// that digest's text, 64 lowercase hexadecimal digits long.
#[verifier::external_body]
pub(crate) fn sha256_hex_of(data: &[u8]) -> (r: String)
    ensures
        r@ == sha256_hex(data@),
        r@.len() == 64,
        forall|i: int| 0 <= i < 64 ==> is_lower_hex(#[trigger] r@[i]),
{
    Sha256::digest(data).iter().map(|b| format!("{b:02x}")).collect()
}

} // verus!
