//! The one point where the library leans on an outside crate: computing a
//! SHA-256 digest. The digest itself is left as a named, uninterpreted
//! function of the input bytes; everything proved about mining and
//! validation goes through that name.

use vstd::prelude::*;

use sha2::Digest;

verus! {

/// The SHA-256 digest of a byte sequence, as the `sha2` crate computes it.
/// Uninterpreted: all that the library relies on is that the digest is a
/// pure function of the input bytes. Its length is 32 wherever a digest is
/// actually produced, which every caller learns from `digest_sha`.
pub uninterp spec fn sha256_of(bytes: Seq<u8>) -> Seq<u8>;

/// Relies on `sha2::Sha256` through the `Digest` trait (`new`, `update`,
/// `finalize`): a 32-byte digest that depends on the input bytes alone.
#[verifier::external_body]
pub(crate) fn digest_sha(bytes: &Vec<u8>) -> (r: [u8; 32])
    ensures
        r@ == sha256_of(bytes@),
{
    let mut hasher = sha2::Sha256::new();
    hasher.update(bytes.as_slice());
    let out = hasher.finalize();
    let mut r = [0u8; 32];
    r.copy_from_slice(&out);
    r
}

} // verus!
