//! The concrete proof-of-work strategy: SHA-256 over the canonical
//! pre-image, a leading-zero-bit target on the digest, and a brute-force
//! nonce search that tries every 32-bit nonce in order from zero.

use vstd::prelude::*;

use crate::block::Block;
use crate::consensus::Consensus;
use crate::digest::digest_sha;
use crate::digest::sha256_of;
use crate::model::BlockView;
use crate::model::DIFFICULTY;
use crate::model::block_bytes;
use crate::model::is_mined_nonce;
use crate::model::lemma_mining_deterministic;
use crate::model::mineable;
use crate::model::mined_nonce;
use crate::model::pow_ok;
use crate::model::pow_sealed;
use crate::model::pow_valid;
use crate::model::prefix_of;
use crate::model::u32_be_bytes;

verus! {

broadcast use vstd::array::group_array_axioms;

/// The brute-force proof-of-work sealing strategy.
pub struct ProofOfWork {}

/// Builds the canonical pre-image from the three fields it is made of:
/// the nonce big-endian, the back-reference, the payload.
fn serialize_parts(nonce: u32, previous_hash: &[u8; 32], payload: &Vec<u8>) -> (r: Vec<u8>)
    ensures
        r@ == block_bytes(nonce, previous_hash@, payload@),
{
    let mut bytes: Vec<u8> = Vec::new();
    bytes.push(((nonce >> 24) & 0xff) as u8);
    bytes.push(((nonce >> 16) & 0xff) as u8);
    bytes.push(((nonce >> 8) & 0xff) as u8);
    bytes.push((nonce & 0xff) as u8);
    proof {
        assert(bytes@ =~= u32_be_bytes(nonce) + previous_hash@.take(0));
    }
    let mut i: usize = 0;
    while i < 32
        invariant
            i <= 32,
            bytes@ == u32_be_bytes(nonce) + previous_hash@.take(i as int),
        decreases 32 - i,
    {
        bytes.push(previous_hash[i]);
        i = i + 1;
        proof {
            assert(previous_hash@.take(i as int) =~= previous_hash@.take(i as int - 1).push(
                previous_hash@[i as int - 1],
            ));
            assert(bytes@ =~= u32_be_bytes(nonce) + previous_hash@.take(i as int));
        }
    }
    proof {
        assert(previous_hash@.take(32) =~= previous_hash@);
        assert(bytes@ =~= u32_be_bytes(nonce) + previous_hash@ + payload@.take(0));
    }
    let mut j: usize = 0;
    while j < payload.len()
        invariant
            j <= payload.len(),
            bytes@ == u32_be_bytes(nonce) + previous_hash@ + payload@.take(j as int),
        decreases payload.len() - j,
    {
        bytes.push(payload[j]);
        j = j + 1;
        proof {
            assert(payload@.take(j as int) =~= payload@.take(j as int - 1).push(
                payload@[j as int - 1],
            ));
            assert(bytes@ =~= u32_be_bytes(nonce) + previous_hash@ + payload@.take(j as int));
        }
    }
    proof {
        assert(payload@.take(payload@.len() as int) =~= payload@);
        assert(bytes@ =~= block_bytes(nonce, previous_hash@, payload@));
    }
    bytes
}

/// The first four bytes of a digest, read big-endian and shifted right so
/// that only the top `DIFFICULTY` bits remain.
fn prefix(hash: &[u8; 32]) -> (r: u32)
    ensures
        r == prefix_of(hash@),
{
    let n: u32 = ((hash[0] as u32) << 24) | ((hash[1] as u32) << 16) | ((hash[2] as u32) << 8) | (
    hash[3] as u32);
    n >> (32 - DIFFICULTY)
}

/// Byte-for-byte equality of two digests.
fn hash_eq(a: &[u8; 32], b: &[u8; 32]) -> (r: bool)
    ensures
        r == (a@ == b@),
{
    let mut i: usize = 0;
    while i < 32
        invariant
            i <= 32,
            forall|k: int| 0 <= k < i ==> a@[k] == b@[k],
        decreases 32 - i,
    {
        if a[i] != b[i] {
            return false;
        }
        i = i + 1;
    }
    proof {
        assert(a@ =~= b@);
    }
    true
}

/// The brute-force search itself, as a pure function of the back-reference
/// and the payload: try every nonce in order from zero and return the first
/// whose digest meets the target, paired with that digest. Returns `None`
/// exactly when no 32-bit nonce seals this pre-image, after exhausting the
/// whole search space.
pub fn mine(previous_hash: &[u8; 32], payload: &Vec<u8>) -> (r: Option<(u32, [u8; 32])>)
    ensures
        (r is Some) == mineable(previous_hash@, payload@),
        r matches Some(p) ==> is_mined_nonce(previous_hash@, payload@, p.0) && p.1@ == sha256_of(
            block_bytes(p.0, previous_hash@, payload@),
        ),
{
    let mut nonce: u32 = 0;
    loop
        invariant
            forall|m: u32| m < nonce ==> !pow_ok(previous_hash@, payload@, m),
        decreases u32::MAX - nonce,
    {
        let bytes = serialize_parts(nonce, previous_hash, payload);
        let h = digest_sha(&bytes);
        if prefix(&h) == 0 {
            proof {
                assert(pow_ok(previous_hash@, payload@, nonce));
                assert(is_mined_nonce(previous_hash@, payload@, nonce));
                assert(mineable(previous_hash@, payload@));
            }
            return Some((nonce, h));
        }
        proof {
            assert(!pow_ok(previous_hash@, payload@, nonce));
        }
        if nonce == u32::MAX {
            proof {
                assert forall|n: u32| !is_mined_nonce(previous_hash@, payload@, n) by {
                    assert(!pow_ok(previous_hash@, payload@, n));
                }
            }
            return None;
        }
        nonce = nonce + 1;
    }
}

impl Consensus for ProofOfWork {
    /// The canonical pre-image: nonce big-endian, back-reference, payload.
    open spec fn spec_bytes(b: BlockView) -> Seq<u8> {
        block_bytes(b.nonce, b.previous_hash, b.payload)
    }

    /// Stored hash equals the recomputed digest, and meets the target.
    open spec fn spec_valid(b: BlockView) -> bool {
        pow_valid(b)
    }

    /// The least sealing nonce with its digest, if any 32-bit nonce seals.
    open spec fn spec_sealed(b: BlockView) -> Option<BlockView> {
        pow_sealed(b)
    }

    fn to_bytes(block: &Block) -> (r: Vec<u8>) {
        let ph = block.get_previous_hash();
        let pl = block.get_payload();
        serialize_parts(block.get_nonce(), &ph, &pl)
    }

    fn calculate_hash(block: &mut Block) -> (ok: bool) {
        let ph = block.get_previous_hash();
        let pl = block.get_payload();
        let r = mine(&ph, &pl);
        match r {
            Some((n, h)) => {
                proof {
                    let m = mined_nonce(ph@, pl@);
                    assert(is_mined_nonce(ph@, pl@, m));
                    lemma_mining_deterministic(ph@, pl@, n, m);
                }
                block.seal(n, h);
                true
            },
            None => false,
        }
    }

    fn is_valid(block: &Block) -> (r: bool) {
        let bytes = Self::to_bytes(block);
        let h = digest_sha(&bytes);
        let stored = block.get_hash();
        let eq = hash_eq(&stored, &h);
        eq && prefix(&h) == 0
    }
}

} // verus!
