//! The consensus abstraction: the capability set a sealing algorithm must
//! offer — serialize a block's pre-image, mine a candidate in place, and
//! validate a sealed block. The chain container is generic over this trait,
//! so new sealing strategies plug in without touching the container or the
//! block layout.

use vstd::prelude::*;

use crate::block::Block;
use crate::model::BlockView;

verus! {

/// A sealing strategy. Each implementation fixes, as spec functions, the
/// byte form it hashes, its validity predicate, and the sealed block mining
/// produces — a pure function of the candidate, which makes sealing
/// deterministic for every implementation of this trait.
pub trait Consensus: Sized {
    /// The canonical pre-image of a block under this strategy.
    spec fn spec_bytes(b: BlockView) -> Seq<u8>;

    /// The validity predicate a sealed block must meet.
    spec fn spec_valid(b: BlockView) -> bool;

    /// The sealed block mining produces from a candidate, or `None` when no
    /// pre-image of the candidate can be sealed. Sealing keeps the
    /// candidate's back-reference and payload and yields a valid block.
    spec fn spec_sealed(b: BlockView) -> Option<BlockView>;

    /// Produce the canonical pre-image for hashing.
    fn to_bytes(block: &Block) -> (r: Vec<u8>)
        ensures
            r@ == Self::spec_bytes(block@),
    ;

    /// Seal a candidate in place: search for a nonce whose digest meets
    /// this strategy's validity predicate and write the nonce and digest
    /// into the block. Returns false, leaving the back-reference and the
    /// payload untouched, exactly when the search space is exhausted.
    fn calculate_hash(block: &mut Block) -> (ok: bool)
        requires
            old(block)@.nonce == 0,
        ensures
            ok == (Self::spec_sealed(old(block)@) matches Some(_)),
            ok ==> Self::spec_sealed(old(block)@) == Some(final(block)@),
            ok ==> Self::spec_valid(final(block)@),
            final(block)@.previous_hash == old(block)@.previous_hash,
            final(block)@.payload == old(block)@.payload,
    ;

    /// Recompute the digest from the block's current fields and report
    /// whether the block is valid under this strategy. Never mutates.
    fn is_valid(block: &Block) -> (r: bool)
        ensures
            r == Self::spec_valid(block@),
    ;
}

} // verus!
