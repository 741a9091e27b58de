//! The mathematical model of a block and of the proof-of-work rule: the byte
//! layout of the pre-image, the leading-zero target, and what it means for a
//! nonce to be the one brute-force search finds. Contracts throughout the
//! library speak in these terms.

use vstd::prelude::*;

use crate::digest::sha256_of;

verus! {

/// Number of leading zero bits a digest must have to meet the target.
pub const DIFFICULTY: u32 = 16;

/// A block as a plain mathematical value: the four fields of a block, with
/// the digests and the payload as byte sequences.
pub ghost struct BlockView {
    pub nonce: u32,
    pub previous_hash: Seq<u8>,
    pub payload: Seq<u8>,
    pub hash: Seq<u8>,
}

/// The all-zero 32-byte digest: the back-reference of a genesis block and
/// the hash field of a not-yet-sealed candidate.
pub open spec fn zero_hash() -> Seq<u8> {
    Seq::new(32, |i: int| 0u8)
}

/// The big-endian 4-byte encoding of a nonce.
pub open spec fn u32_be_bytes(n: u32) -> Seq<u8> {
    seq![
        ((n >> 24) & 0xff) as u8,
        ((n >> 16) & 0xff) as u8,
        ((n >> 8) & 0xff) as u8,
        (n & 0xff) as u8,
    ]
}

/// The canonical pre-image of a block: the nonce big-endian, then the 32
/// bytes of the back-reference, then the raw payload. This exact order is
/// load-bearing: it is what gets hashed.
pub open spec fn block_bytes(nonce: u32, previous_hash: Seq<u8>, payload: Seq<u8>) -> Seq<u8> {
    u32_be_bytes(nonce) + previous_hash + payload
}

/// The first four bytes of a digest read as a big-endian 32-bit integer and
/// shifted right so that only its top `DIFFICULTY` bits remain. A digest
/// meets the target exactly when this value is zero.
pub open spec fn prefix_of(h: Seq<u8>) -> u32
    recommends
        h.len() >= 4,
{
    (((h[0] as u32) << 24) | ((h[1] as u32) << 16) | ((h[2] as u32) << 8) | (h[3] as u32))
        >> ((32 - DIFFICULTY) as u32)
}

/// The digest of the pre-image built from this nonce meets the target.
pub open spec fn pow_ok(previous_hash: Seq<u8>, payload: Seq<u8>, nonce: u32) -> bool {
    prefix_of(sha256_of(block_bytes(nonce, previous_hash, payload))) == 0
}

/// `nonce` is the nonce that brute-force search starting from zero finds:
/// it meets the target, and no smaller nonce does.
pub open spec fn is_mined_nonce(previous_hash: Seq<u8>, payload: Seq<u8>, nonce: u32) -> bool {
    &&& pow_ok(previous_hash, payload, nonce)
    &&& forall|m: u32| m < nonce ==> !pow_ok(previous_hash, payload, m)
}

/// Some 32-bit nonce seals this pre-image.
pub open spec fn mineable(previous_hash: Seq<u8>, payload: Seq<u8>) -> bool {
    exists|n: u32| is_mined_nonce(previous_hash, payload, n)
}

/// The nonce mining returns for this pre-image.
pub open spec fn mined_nonce(previous_hash: Seq<u8>, payload: Seq<u8>) -> u32 {
    choose|n: u32| is_mined_nonce(previous_hash, payload, n)
}

/// A sealed proof-of-work block: recomputing the digest from the stored
/// fields reproduces the stored hash, and that digest meets the target.
pub open spec fn pow_valid(b: BlockView) -> bool {
    &&& b.hash == sha256_of(block_bytes(b.nonce, b.previous_hash, b.payload))
    &&& prefix_of(b.hash) == 0
}

/// The sealed block mining produces from a candidate's back-reference and
/// payload, or `None` when no 32-bit nonce meets the target for them.
pub open spec fn pow_sealed(b: BlockView) -> Option<BlockView> {
    if mineable(b.previous_hash, b.payload) {
        let n = mined_nonce(b.previous_hash, b.payload);
        Some(
            BlockView {
                nonce: n,
                previous_hash: b.previous_hash,
                payload: b.payload,
                hash: sha256_of(block_bytes(n, b.previous_hash, b.payload)),
            },
        )
    } else {
        None
    }
}

/// Mining is deterministic: one pre-image has at most one mined nonce, and
/// with it one mined digest. Re-running mining on identical inputs yields
/// the identical `(nonce, hash)` pair.
pub proof fn lemma_mining_deterministic(
    previous_hash: Seq<u8>,
    payload: Seq<u8>,
    n1: u32,
    n2: u32,
)
    requires
        is_mined_nonce(previous_hash, payload, n1),
        is_mined_nonce(previous_hash, payload, n2),
    ensures
        n1 == n2,
        sha256_of(block_bytes(n1, previous_hash, payload)) == sha256_of(
            block_bytes(n2, previous_hash, payload),
        ),
{
    if n1 < n2 {
        assert(!pow_ok(previous_hash, payload, n1));
    }
    if n2 < n1 {
        assert(!pow_ok(previous_hash, payload, n2));
    }
}

/// Every sealed block's digest meets the target: its first four bytes, read
/// big-endian and shifted right by `32 - DIFFICULTY`, are zero.
pub proof fn lemma_target_check(b: BlockView)
    requires
        pow_valid(b),
    ensures
        prefix_of(b.hash) == 0,
{
}

/// Tampering with a sealed block's stored hash is detected: a block that
/// agrees with a valid one except for a different hash fails validation.
pub proof fn lemma_tamper_hash_detected(b: BlockView, tampered: BlockView)
    requires
        pow_valid(b),
        tampered.nonce == b.nonce,
        tampered.previous_hash == b.previous_hash,
        tampered.payload == b.payload,
        tampered.hash != b.hash,
    ensures
        !pow_valid(tampered),
{
}

/// The pre-image pins the fields down: two blocks with 32-byte
/// back-references and the same pre-image agree on nonce, back-reference
/// and payload. So mutating any of the three changes the pre-image.
pub proof fn lemma_block_bytes_injective(
    n1: u32,
    ph1: Seq<u8>,
    pl1: Seq<u8>,
    n2: u32,
    ph2: Seq<u8>,
    pl2: Seq<u8>,
)
    requires
        ph1.len() == 32,
        ph2.len() == 32,
        block_bytes(n1, ph1, pl1) == block_bytes(n2, ph2, pl2),
    ensures
        n1 == n2,
        ph1 == ph2,
        pl1 == pl2,
{
    let b1 = block_bytes(n1, ph1, pl1);
    let b2 = block_bytes(n2, ph2, pl2);
    assert(((n1 >> 24) & 0xff) as u8 == b1[0] && ((n2 >> 24) & 0xff) as u8 == b2[0]);
    assert(((n1 >> 16) & 0xff) as u8 == b1[1] && ((n2 >> 16) & 0xff) as u8 == b2[1]);
    assert(((n1 >> 8) & 0xff) as u8 == b1[2] && ((n2 >> 8) & 0xff) as u8 == b2[2]);
    assert((n1 & 0xff) as u8 == b1[3] && (n2 & 0xff) as u8 == b2[3]);
    assert((((n1 >> 24) & 0xff) as u8 == ((n2 >> 24) & 0xff) as u8 && ((n1 >> 16) & 0xff) as u8
        == ((n2 >> 16) & 0xff) as u8 && ((n1 >> 8) & 0xff) as u8 == ((n2 >> 8) & 0xff) as u8 && (
    n1 & 0xff) as u8 == (n2 & 0xff) as u8) ==> n1 == n2) by (bit_vector);
    assert(ph1 =~= ph2) by {
        assert forall|i: int| 0 <= i < 32 implies ph1[i] == ph2[i] by {
            assert(ph1[i] == b1[4 + i] && ph2[i] == b2[4 + i]);
        }
    }
    assert(pl1 =~= pl2) by {
        assert(b1.len() == b2.len());
        assert forall|i: int| 0 <= i < pl1.len() implies pl1[i] == pl2[i] by {
            assert(pl1[i] == b1[36 + i] && pl2[i] == b2[36 + i]);
        }
    }
}

/// Tampering with a sealed block's nonce or payload changes the pre-image,
/// and is detected whenever the altered pre-image does not collide with the
/// sealed one under SHA-256: the stored hash no longer matches the
/// recomputed digest.
pub proof fn lemma_tamper_preimage_detected(b: BlockView, tampered: BlockView)
    requires
        pow_valid(b),
        tampered.hash == b.hash,
        sha256_of(block_bytes(tampered.nonce, tampered.previous_hash, tampered.payload))
            != sha256_of(block_bytes(b.nonce, b.previous_hash, b.payload)),
    ensures
        !pow_valid(tampered),
{
}

} // verus!
