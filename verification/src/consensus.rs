//! Consensus strategies: pure predicates over blocks, and the all-must-pass
//! hybrid combinator.
//!
//! Proof of work checks the mined hash; the stake-, delegate-, round- and
//! storage-based strategies are placeholder predicates over the block index
//! standing in for real algorithms, as the interface's contract (a
//! deterministic, side-effect-free predicate) is what matters here.

use crate::block::{Block, BlockV};
use crate::hashing::{has_leading_zeros, leading_zeros_at_least};
use vstd::prelude::*;
use vstd::string::StringExecFns;

verus! {

/// What proof of work accepts: a mined hash with at least four leading
/// zeros, whatever difficulty the block was actually mined at.
pub open spec fn pow_accepts(b: BlockV) -> bool {
    match b.hash {
        Option::Some(h) => leading_zeros_at_least(h, 4),
        Option::None => false,
    }
}

/// What the stake placeholder accepts: an even block index.
pub open spec fn pos_accepts(b: BlockV) -> bool {
    b.index % 2 == 0
}

/// What the delegate placeholder accepts: an index divisible by three.
pub open spec fn dpos_accepts(b: BlockV) -> bool {
    b.index % 3 == 0
}

/// What the voting-round placeholder accepts: an index divisible by four.
pub open spec fn tendermint_accepts(b: BlockV) -> bool {
    b.index % 4 == 0
}

/// What the storage-proof placeholder accepts: an index divisible by five.
pub open spec fn pospace_accepts(b: BlockV) -> bool {
    b.index % 5 == 0
}

/// A consensus strategy: a pure predicate on blocks. `accepts` is the
/// strategy's meaning, and `validate` must decide exactly it.
pub trait Consensus {
    spec fn accepts(&self, b: BlockV) -> bool;

    fn validate(&self, block: &Block) -> (r: bool)
        ensures
            r == self.accepts(block@),
    ;
}

pub struct PoW;

pub struct PoS;

pub struct DPoS;

pub struct Tendermint;

pub struct PoSpace;

impl Consensus for PoW {
    open spec fn accepts(&self, b: BlockV) -> bool {
        pow_accepts(b)
    }

    fn validate(&self, block: &Block) -> (r: bool) {
        match &block.hash {
            Some(h) => {
                proof {
                    assert(block@.hash =~= Some(h@));
                }
                has_leading_zeros(h.as_str(), 4)
            },
            None => {
                proof {
                    assert(block@.hash =~= Option::<Seq<char>>::None);
                }
                false
            },
        }
    }
}

impl Consensus for PoS {
    open spec fn accepts(&self, b: BlockV) -> bool {
        pos_accepts(b)
    }

    fn validate(&self, block: &Block) -> (r: bool) {
        block.index % 2 == 0
    }
}

impl Consensus for DPoS {
    open spec fn accepts(&self, b: BlockV) -> bool {
        dpos_accepts(b)
    }

    fn validate(&self, block: &Block) -> (r: bool) {
        block.index % 3 == 0
    }
}

impl Consensus for Tendermint {
    open spec fn accepts(&self, b: BlockV) -> bool {
        tendermint_accepts(b)
    }

    fn validate(&self, block: &Block) -> (r: bool) {
        block.index % 4 == 0
    }
}

impl Consensus for PoSpace {
    open spec fn accepts(&self, b: BlockV) -> bool {
        pospace_accepts(b)
    }

    fn validate(&self, block: &Block) -> (r: bool) {
        block.index % 5 == 0
    }
}

/// The closed set of strategy names.
#[derive(Clone, Debug)]
pub enum ConsensusType {
    PoW,
    PoS,
    DPoS,
    Tendermint,
    PoSpace,
}

/// What a named strategy accepts.
pub open spec fn type_accepts(t: ConsensusType, b: BlockV) -> bool {
    match t {
        ConsensusType::PoW => pow_accepts(b),
        ConsensusType::PoS => pos_accepts(b),
        ConsensusType::DPoS => dpos_accepts(b),
        ConsensusType::Tendermint => tendermint_accepts(b),
        ConsensusType::PoSpace => pospace_accepts(b),
    }
}

/// A strategy name is itself a strategy: it accepts what the strategy it
/// names accepts.
impl Consensus for ConsensusType {
    open spec fn accepts(&self, b: BlockV) -> bool {
        type_accepts(*self, b)
    }

    fn validate(&self, block: &Block) -> (r: bool) {
        match self {
            ConsensusType::PoW => {
                let pow = PoW;
                pow.validate(block)
            },
            ConsensusType::PoS => {
                let pos = PoS;
                pos.validate(block)
            },
            ConsensusType::DPoS => {
                let dpos = DPoS;
                dpos.validate(block)
            },
            ConsensusType::Tendermint => {
                let tendermint = Tendermint;
                tendermint.validate(block)
            },
            ConsensusType::PoSpace => {
                let pospace = PoSpace;
                pospace.validate(block)
            },
        }
    }
}

/// The strategy a name stands for, as a boxed trait object; each strategy's
/// `validate` decides its `accepts` predicate.
pub fn get_consensus(consensus_type: ConsensusType) -> Box<dyn Consensus> {
    match consensus_type {
        ConsensusType::PoW => Box::new(PoW),
        ConsensusType::PoS => Box::new(PoS),
        ConsensusType::DPoS => Box::new(DPoS),
        ConsensusType::Tendermint => Box::new(Tendermint),
        ConsensusType::PoSpace => Box::new(PoSpace),
    }
}

/// The strategy name scheduled for a block index, rotating through the five
/// strategies.
pub fn choose_consensus(block_index: u64) -> (r: String)
    ensures
        block_index % 5 == 0 ==> r@ == "PoW"@,
        block_index % 5 == 1 ==> r@ == "PoS"@,
        block_index % 5 == 2 ==> r@ == "DPoS"@,
        block_index % 5 == 3 ==> r@ == "Tendermint"@,
        block_index % 5 == 4 ==> r@ == "PoSpace"@,
{
    match block_index % 5 {
        0 => String::from_str("PoW"),
        1 => String::from_str("PoS"),
        2 => String::from_str("DPoS"),
        3 => String::from_str("Tendermint"),
        _ => String::from_str("PoSpace"),
    }
}

/// All held strategies accept the block.
pub open spec fn hybrid_accepts(ms: Seq<Box<dyn Consensus>>, b: BlockV) -> bool {
    forall|i: int| 0 <= i < ms.len() ==> #[trigger] ms[i].accepts(b)
}

/// An ordered set of strategies that must all accept a block.
pub struct HybridConsensus {
    pub mechanisms: Vec<Box<dyn Consensus>>,
}

impl HybridConsensus {
    /// Combine strategies; all of them will have to accept.
    pub fn new(mechanisms: Vec<Box<dyn Consensus>>) -> (r: HybridConsensus)
        ensures
            r.mechanisms@ == mechanisms@,
    {
        HybridConsensus { mechanisms }
    }

    /// The conjunction of every held strategy's verdict.
    pub fn validate(&self, block: &Block) -> (r: bool)
        ensures
            r == hybrid_accepts(self.mechanisms@, block@),
    {
        let mut k: usize = 0;
        while k < self.mechanisms.len()
            invariant
                0 <= k <= self.mechanisms@.len(),
                forall|i: int| 0 <= i < k ==> #[trigger] self.mechanisms@[i].accepts(block@),
            decreases self.mechanisms@.len() - k,
        {
            if !self.mechanisms[k].validate(block) {
                return false;
            }
            k += 1;
        }
        true
    }
}

/// The kinds of transaction workload routed to a strategy.
pub enum TransactionType {
    Large,
    Small,
    Delegation,
    Fast,
    Storage,
}

/// What the strategy routed for a workload kind accepts.
pub open spec fn transaction_type_accepts(t: TransactionType, b: BlockV) -> bool {
    match t {
        TransactionType::Large => pow_accepts(b),
        TransactionType::Small => pos_accepts(b),
        TransactionType::Delegation => dpos_accepts(b),
        TransactionType::Fast => tendermint_accepts(b),
        TransactionType::Storage => pospace_accepts(b),
    }
}

/// Route a block through the strategy that handles this workload kind.
pub fn validate_transaction(transaction_type: TransactionType, block: &Block) -> (r: bool)
    ensures
        r == transaction_type_accepts(transaction_type, block@),
{
    match transaction_type {
        TransactionType::Large => {
            let pow = PoW;
            pow.validate(block)
        },
        TransactionType::Small => {
            let pos = PoS;
            pos.validate(block)
        },
        TransactionType::Delegation => {
            let dpos = DPoS;
            dpos.validate(block)
        },
        TransactionType::Fast => {
            let tendermint = Tendermint;
            tendermint.validate(block)
        },
        TransactionType::Storage => {
            let pospace = PoSpace;
            pospace.validate(block)
        },
    }
}

/// The display name of a workload kind.
pub fn transaction_type_to_string(transaction_type: TransactionType) -> (r: &'static str)
    ensures
        r@ == match transaction_type {
            TransactionType::Large => "Large"@,
            TransactionType::Small => "Small"@,
            TransactionType::Delegation => "Delegation"@,
            TransactionType::Fast => "Fast"@,
            TransactionType::Storage => "Storage"@,
        },
{
    match transaction_type {
        TransactionType::Large => "Large",
        TransactionType::Small => "Small",
        TransactionType::Delegation => "Delegation",
        TransactionType::Fast => "Fast",
        TransactionType::Storage => "Storage",
    }
}

} // verus!
