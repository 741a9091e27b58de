//! The block record: four fields, read-only accessors, and the two-phase
//! construction every candidate goes through — built unsealed with a zero
//! nonce and zero hash, then handed to a consensus strategy that alone
//! writes the nonce and the hash.

use vstd::prelude::*;

use crate::model::BlockView;
use crate::model::zero_hash;

verus! {

broadcast use vstd::array::group_array_axioms;

/// An immutable-once-sealed record: a nonce found by mining, the digest of
/// the predecessor block (all zero for the first block), an opaque payload
/// the core never inspects, and the block's own sealed digest.
pub struct Block {
    nonce: u32,
    previous_hash: [u8; 32],
    payload: Vec<u8>,
    hash: [u8; 32],
}

impl View for Block {
    type V = BlockView;

    closed spec fn view(&self) -> BlockView {
        BlockView {
            nonce: self.nonce,
            previous_hash: self.previous_hash@,
            payload: self.payload@,
            hash: self.hash@,
        }
    }
}

impl Block {
    /// An unsealed candidate for the first block of a chain: its
    /// back-reference is the all-zero digest.
    pub(crate) fn genesis(payload: Vec<u8>) -> (r: Block)
        ensures
            r@ == (BlockView {
                nonce: 0,
                previous_hash: zero_hash(),
                payload: payload@,
                hash: zero_hash(),
            }),
    {
        Block::new(zero_hash_bytes(), payload)
    }

    /// An unsealed candidate for the block that follows `self`: its
    /// back-reference is `self`'s sealed digest.
    pub(crate) fn chain(&self, payload: Vec<u8>) -> (r: Block)
        ensures
            r@ == (BlockView {
                nonce: 0,
                previous_hash: self@.hash,
                payload: payload@,
                hash: zero_hash(),
            }),
    {
        Block::new(self.hash, payload)
    }

    /// An unsealed candidate with the given back-reference: nonce and hash
    /// start at zero, the state mining expects.
    pub(crate) fn new(previous_hash: [u8; 32], payload: Vec<u8>) -> (r: Block)
        ensures
            r@ == (BlockView {
                nonce: 0,
                previous_hash: previous_hash@,
                payload: payload@,
                hash: zero_hash(),
            }),
    {
        Block::raw(previous_hash, payload, 0, zero_hash_bytes())
    }

    /// A block with all four fields given verbatim, for reconstructing an
    /// externally sealed block. No mining and no validity check happens
    /// here: callers must check validity themselves.
    pub fn raw(previous_hash: [u8; 32], payload: Vec<u8>, nonce: u32, hash: [u8; 32]) -> (r: Block)
        ensures
            r@ == (BlockView {
                nonce: nonce,
                previous_hash: previous_hash@,
                payload: payload@,
                hash: hash@,
            }),
    {
        Block { nonce, previous_hash, payload, hash }
    }

    /// Writes the mined nonce and digest into the block, leaving the
    /// back-reference and the payload untouched. Only consensus strategies
    /// inside this crate seal blocks; sealed blocks never change again.
    pub(crate) fn seal(&mut self, nonce: u32, hash: [u8; 32])
        ensures
            final(self)@ == (BlockView {
                nonce: nonce,
                previous_hash: old(self)@.previous_hash,
                payload: old(self)@.payload,
                hash: hash@,
            }),
    {
        self.nonce = nonce;
        self.hash = hash;
    }

    /// The digest of the predecessor block, all zero for a genesis block.
    pub fn get_previous_hash(&self) -> (r: [u8; 32])
        ensures
            r@ == self@.previous_hash,
    {
        self.previous_hash
    }

    /// A copy of the payload bytes.
    pub fn get_payload(&self) -> (r: Vec<u8>)
        ensures
            r@ == self@.payload,
    {
        let r = self.payload.clone();
        proof {
            assert(r@ =~= self.payload@);
        }
        r
    }

    /// The nonce mining found, zero while the block is unsealed.
    pub fn get_nonce(&self) -> (r: u32)
        ensures
            r == self@.nonce,
    {
        self.nonce
    }

    /// The block's own digest, its sealed identity.
    pub fn get_hash(&self) -> (r: [u8; 32])
        ensures
            r@ == self@.hash,
    {
        self.hash
    }
}

/// The all-zero 32-byte digest as an executable value.
fn zero_hash_bytes() -> (r: [u8; 32])
    ensures
        r@ == zero_hash(),
{
    let r = [0u8; 32];
    proof {
        assert(r@ =~= zero_hash());
    }
    r
}

} // verus!
