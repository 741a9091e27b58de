//! The chain container: an append-only sequence of blocks in which every
//! block references its predecessor's digest, the first block references
//! the all-zero digest, and every stored block is valid under the chain's
//! consensus strategy. The container maintains that invariant itself and is
//! generic over the strategy.

use core::marker::PhantomData;

use vstd::prelude::*;

use crate::block::Block;
use crate::consensus::Consensus;
use crate::model::BlockView;
use crate::model::zero_hash;

verus! {

/// The chain invariant: a genesis back-reference of 32 zero bytes, each
/// later block referencing the hash of the one before it, and every block
/// valid under the strategy `C`.
pub open spec fn chain_wf<C: Consensus>(s: Seq<BlockView>) -> bool {
    &&& s.len() > 0 ==> s[0].previous_hash == zero_hash()
    &&& forall|i: int| 0 < i < s.len() ==> s[i].previous_hash == s[i - 1].hash
    &&& forall|i: int| 0 <= i < s.len() ==> C::spec_valid(s[i])
}

/// The digest the next appended block must reference: the last block's
/// hash, or the all-zero digest when the chain is still empty.
pub open spec fn chain_tip_hash(s: Seq<BlockView>) -> Seq<u8> {
    if s.len() == 0 {
        zero_hash()
    } else {
        s.last().hash
    }
}

/// The unsealed candidate built for a payload on a given tip: nonce and
/// hash start at zero, the state mining expects.
pub open spec fn candidate_view(previous_hash: Seq<u8>, payload: Seq<u8>) -> BlockView {
    BlockView { nonce: 0, previous_hash: previous_hash, payload: payload, hash: zero_hash() }
}

/// An ordered, append-only sequence of sealed blocks, linked by digest and
/// sealed by the consensus strategy `C`.
pub struct Blockchain<C> {
    phantom: PhantomData<C>,
    chain: Vec<Block>,
}

impl<C> View for Blockchain<C> {
    type V = Seq<BlockView>;

    closed spec fn view(&self) -> Seq<BlockView> {
        self.chain@.map(|i: int, b: Block| b@)
    }
}

impl<C: Consensus> Blockchain<C> {
    /// An empty chain, trivially well formed.
    pub fn new() -> (r: Blockchain<C>)
        ensures
            r@ == Seq::<BlockView>::empty(),
            chain_wf::<C>(r@),
    {
        let r = Blockchain { phantom: PhantomData, chain: Vec::new() };
        proof {
            assert(r@ =~= Seq::<BlockView>::empty());
        }
        r
    }

    /// Build a candidate whose back-reference is the current tip, have `C`
    /// seal it, append it, and return a read-only reference to it. Returns
    /// `None`, leaving the chain unchanged, exactly when `C` cannot seal
    /// the candidate — for brute-force proof of work, when every 32-bit
    /// nonce has been tried in vain.
    pub fn add(&mut self, payload: Vec<u8>) -> (r: Option<&Block>)
        ensures
            chain_wf::<C>(old(self)@) ==> chain_wf::<C>(final(self)@),
            (r is Some) == (C::spec_sealed(candidate_view(chain_tip_hash(old(self)@), payload@))
                matches Some(_)),
            r matches Some(b) ==> C::spec_sealed(
                candidate_view(chain_tip_hash(old(self)@), payload@),
            ) == Some(b@) && final(self)@ == old(self)@.push(b@),
            r matches Some(b) ==> b@.previous_hash == chain_tip_hash(old(self)@) && b@.payload
                == payload@ && C::spec_valid(b@),
            r is None ==> final(self)@ == old(self)@,
    {
        let ghost orig = self@;
        let mut block: Block;
        if self.chain.len() == 0 {
            block = Block::genesis(payload);
        } else {
            let n: usize = self.chain.len();
            block = self.chain[n - 1].chain(payload);
            proof {
                assert(self@[n - 1] == self.chain@[n - 1]@);
            }
        }
        proof {
            assert(block@ == candidate_view(chain_tip_hash(orig), block@.payload));
        }
        let ok = C::calculate_hash(&mut block);
        if ok {
            self.chain.push(block);
            proof {
                assert(self@ =~= orig.push(self.chain@.last()@));
                if chain_wf::<C>(orig) {
                    assert(chain_wf::<C>(self@));
                }
            }
            let n: usize = self.chain.len();
            Some(&self.chain[n - 1])
        } else {
            proof {
                assert(self@ =~= orig);
            }
            None
        }
    }

    /// The blocks in insertion order, read-only. Each call hands out the
    /// same immutable backing sequence.
    pub fn iter(&self) -> (r: &Vec<Block>)
        ensures
            r@.len() == self@.len(),
            forall|i: int| 0 <= i < r@.len() ==> r@[i]@ == self@[i],
    {
        &self.chain
    }
}

/// Linking: in a well-formed chain every block after the first references
/// the hash of the block just before it.
pub proof fn lemma_linking<C: Consensus>(s: Seq<BlockView>, i: int)
    requires
        chain_wf::<C>(s),
        0 < i < s.len(),
    ensures
        s[i].previous_hash == s[i - 1].hash,
{
}

/// Genesis: in a well-formed, non-empty chain the first block's
/// back-reference is exactly 32 zero bytes.
pub proof fn lemma_genesis<C: Consensus>(s: Seq<BlockView>)
    requires
        chain_wf::<C>(s),
        s.len() > 0,
    ensures
        s[0].previous_hash == zero_hash(),
        s[0].previous_hash.len() == 32,
        forall|i: int| 0 <= i < 32 ==> s[0].previous_hash[i] == 0u8,
{
}

/// Self-validity: every block a well-formed chain holds — in particular
/// every block `add` appended — is valid under the chain's strategy.
pub proof fn lemma_blocks_valid<C: Consensus>(s: Seq<BlockView>, i: int)
    requires
        chain_wf::<C>(s),
        0 <= i < s.len(),
    ensures
        C::spec_valid(s[i]),
{
}

} // verus!
