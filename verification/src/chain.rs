//! The chain store: an append-only sequence of accepted blocks that rejects
//! any block whose hash a stored block already carries.

use crate::block::{hash_is_unique, Block, BlockV};
use vstd::prelude::*;
use vstd::string::StringExecFns;

verus! {

/// Why the chain store refuses a block.
#[derive(Clone, Copy, Debug, PartialEq, Eq, Structural)]
pub enum ChainError {
    /// A stored block already carries the candidate's hash.
    DuplicateBlockHash,
}

/// The hash a block is filed under: its stored hash, or the empty string
/// when it has none.
pub open spec fn stored_hash_key(b: BlockV) -> Seq<char> {
    match b.hash {
        Option::Some(h) => h,
        Option::None => Seq::empty(),
    }
}

/// An append-only sequence of accepted blocks, oldest first.
pub struct ChainStore {
    blocks: Vec<Block>,
}

impl View for ChainStore {
    type V = Seq<BlockV>;

    closed spec fn view(&self) -> Seq<BlockV> {
        self.blocks.deep_view()
    }
}

impl ChainStore {
    #[verifier::type_invariant]
    spec fn distinct_hashes(self) -> bool {
        forall|i: int, j: int|
            0 <= i < j < self@.len() ==> (self@[i].hash is Some ==> self@[i].hash != self@[j].hash)
    }

    /// An empty chain.
    pub fn new() -> (r: ChainStore)
        ensures
            r@ == Seq::<BlockV>::empty(),
    {
        let r = ChainStore { blocks: Vec::new() };
        proof {
            assert(r@ =~= Seq::<BlockV>::empty());
        }
        r
    }

    /// How many blocks the chain holds.
    pub fn len(&self) -> (r: usize)
        ensures
            r == self@.len(),
    {
        self.blocks.len()
    }

    /// The stored blocks, oldest first.
    pub fn blocks(&self) -> (r: &Vec<Block>)
        ensures
            r.deep_view() == self@,
    {
        &self.blocks
    }

    /// Accept a block whose hash no stored block carries and append it;
    /// reject every other block unchanged. Appending two blocks with the
    /// same hash therefore rejects the second.
    pub fn append(&mut self, block: Block) -> (r: Result<(), ChainError>)
        ensures
            r is Ok <==> hash_is_unique(old(self)@, stored_hash_key(block@)),
            r is Ok ==> final(self)@ == old(self)@.push(block@),
            r is Err ==> final(self)@ == old(self)@ && r == Err::<(), ChainError>(
                ChainError::DuplicateBlockHash,
            ),
    {
        let stored = self.blocks.as_slice();
        proof {
            assert(stored.deep_view() =~= self@);
        }
        let unique = match &block.hash {
            Some(h) => Block::is_unique_hash(stored, h.as_str()),
            None => {
                proof {
                    reveal_strlit("");
                    assert(""@ =~= Seq::<char>::empty());
                }
                Block::is_unique_hash(stored, "")
            },
        };
        if unique {
            proof {
                use_type_invariant(&*self);
            }
            let ghost pre = self@;
            let ghost bv = block@;
            let mut blocks: Vec<Block> = Vec::new();
            core::mem::swap(&mut blocks, &mut self.blocks);
            blocks.push(block);
            proof {
                assert(blocks.deep_view() =~= pre.push(bv));
                assert forall|i: int, j: int|
                    0 <= i < j < blocks.deep_view().len() implies (blocks.deep_view()[i].hash
                    is Some ==> blocks.deep_view()[i].hash != blocks.deep_view()[j].hash) by {
                    if j < pre.len() {
                        assert(pre[i].hash is Some ==> pre[i].hash != pre[j].hash);
                    } else {
                        assert(pre[i].hash != Some(stored_hash_key(bv)));
                    }
                }
            }
            self.blocks = blocks;
            Ok(())
        } else {
            Err(ChainError::DuplicateBlockHash)
        }
    }

    /// The reference for the next candidate block's `previous_hash`: the
    /// last stored block's hash, or the genesis sentinel `"0"` for an empty
    /// chain.
    pub fn next_previous_hash(&self) -> (r: String)
        ensures
            self@.len() == 0 ==> r@ == "0"@,
            self@.len() > 0 ==> r@ == stored_hash_key(self@.last()),
    {
        if self.blocks.len() == 0 {
            String::from_str("0")
        } else {
            let b = &self.blocks[self.blocks.len() - 1];
            proof {
                assert(self@.last() == b.deep_view());
            }
            match &b.hash {
                Some(h) => h.clone(),
                None => String::new(),
            }
        }
    }

    /// The status summary: how many blocks the chain holds and the last
    /// block's hash (empty for an empty chain or an unmined last block).
    pub fn status(&self) -> (r: (usize, String))
        ensures
            r.0 == self@.len(),
            self@.len() == 0 ==> r.1@ == Seq::<char>::empty(),
            self@.len() > 0 ==> r.1@ == stored_hash_key(self@.last()),
    {
        let count = self.blocks.len();
        if count == 0 {
            (count, String::new())
        } else {
            let b = &self.blocks[count - 1];
            proof {
                assert(self@.last() == b.deep_view());
            }
            let h = match &b.hash {
                Some(h) => h.clone(),
                None => String::new(),
            };
            (count, h)
        }
    }
}

} // verus!
