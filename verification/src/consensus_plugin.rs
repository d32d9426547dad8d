//! A registrable variant of the consensus abstraction: named plugins
//! gathered by a manager that requires every registered plugin to accept.

use crate::block::{Block, BlockV};
use crate::consensus::{
    dpos_accepts, pos_accepts, pospace_accepts, pow_accepts, tendermint_accepts, Consensus,
    DPoS, PoS, PoSpace, PoW, Tendermint,
};
use vstd::prelude::*;

verus! {

/// A named consensus plugin: a pure predicate on blocks under a display
/// name. `accepts` is the plugin's meaning, and `validate` must decide
/// exactly it.
pub trait ConsensusPlugin: Send + Sync {
    spec fn accepts(&self, b: BlockV) -> bool;

    spec fn spec_name(&self) -> Seq<char>;

    fn name(&self) -> (r: &'static str)
        ensures
            r@ == self.spec_name(),
    ;

    fn validate(&self, block: &Block) -> (r: bool)
        ensures
            r == self.accepts(block@),
    ;
}

impl ConsensusPlugin for PoW {
    open spec fn accepts(&self, b: BlockV) -> bool {
        pow_accepts(b)
    }

    open spec fn spec_name(&self) -> Seq<char> {
        "PoW"@
    }

    fn name(&self) -> (r: &'static str) {
        "PoW"
    }

    fn validate(&self, block: &Block) -> (r: bool) {
        Consensus::validate(self, block)
    }
}

impl ConsensusPlugin for PoS {
    open spec fn accepts(&self, b: BlockV) -> bool {
        pos_accepts(b)
    }

    open spec fn spec_name(&self) -> Seq<char> {
        "PoS"@
    }

    fn name(&self) -> (r: &'static str) {
        "PoS"
    }

    fn validate(&self, block: &Block) -> (r: bool) {
        Consensus::validate(self, block)
    }
}

impl ConsensusPlugin for DPoS {
    open spec fn accepts(&self, b: BlockV) -> bool {
        dpos_accepts(b)
    }

    open spec fn spec_name(&self) -> Seq<char> {
        "DPoS"@
    }

    fn name(&self) -> (r: &'static str) {
        "DPoS"
    }

    fn validate(&self, block: &Block) -> (r: bool) {
        Consensus::validate(self, block)
    }
}

impl ConsensusPlugin for Tendermint {
    open spec fn accepts(&self, b: BlockV) -> bool {
        tendermint_accepts(b)
    }

    open spec fn spec_name(&self) -> Seq<char> {
        "Tendermint"@
    }

    fn name(&self) -> (r: &'static str) {
        "Tendermint"
    }

    fn validate(&self, block: &Block) -> (r: bool) {
        Consensus::validate(self, block)
    }
}

impl ConsensusPlugin for PoSpace {
    open spec fn accepts(&self, b: BlockV) -> bool {
        pospace_accepts(b)
    }

    open spec fn spec_name(&self) -> Seq<char> {
        "PoSpace"@
    }

    fn name(&self) -> (r: &'static str) {
        "PoSpace"
    }

    fn validate(&self, block: &Block) -> (r: bool) {
        Consensus::validate(self, block)
    }
}

/// All registered plugins accept the block.
pub open spec fn plugins_accept(ps: Seq<Box<dyn ConsensusPlugin>>, b: BlockV) -> bool {
    forall|i: int| 0 <= i < ps.len() ==> #[trigger] ps[i].accepts(b)
}

/// An ordered registry of plugins that must all accept a block.
pub struct PluginManager {
    plugins: Vec<Box<dyn ConsensusPlugin>>,
}

impl PluginManager {
    /// The registered plugins, in registration order.
    pub closed spec fn plugins(&self) -> Seq<Box<dyn ConsensusPlugin>> {
        self.plugins@
    }

    /// An empty registry.
    pub fn new() -> (r: PluginManager)
        ensures
            r.plugins() == Seq::<Box<dyn ConsensusPlugin>>::empty(),
    {
        let r = PluginManager { plugins: Vec::new() };
        proof {
            assert(r.plugins() =~= Seq::<Box<dyn ConsensusPlugin>>::empty());
        }
        r
    }

    /// Register one more plugin, after the ones already held.
    pub fn register_plugin(&mut self, plugin: Box<dyn ConsensusPlugin>)
        ensures
            final(self).plugins() == old(self).plugins().push(plugin),
    {
        self.plugins.push(plugin);
    }

    /// The conjunction of every registered plugin's verdict, in
    /// registration order.
    pub fn validate_block(&self, block: &Block) -> (r: bool)
        ensures
            r == plugins_accept(self.plugins(), block@),
    {
        let mut k: usize = 0;
        while k < self.plugins.len()
            invariant
                0 <= k <= self.plugins@.len(),
                forall|i: int| 0 <= i < k ==> #[trigger] self.plugins@[i].accepts(block@),
            decreases self.plugins@.len() - k,
        {
            if !self.plugins[k].validate(block) {
                return false;
            }
            k += 1;
        }
        true
    }
}

} // verus!
