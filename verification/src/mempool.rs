//! The mempool: a transient, first-in-first-out buffer of submitted,
//! not-yet-included transactions.

use crate::transaction::{Transaction, TransactionV};
use vstd::prelude::*;

verus! {

/// Pending transactions in submission order.
pub struct Mempool {
    pub transactions: Vec<Transaction>,
}

impl View for Mempool {
    type V = Seq<TransactionV>;

    open spec fn view(&self) -> Seq<TransactionV> {
        self.transactions.deep_view()
    }
}

impl Default for Mempool {
    /// An empty mempool.
    fn default() -> (r: Mempool)
        ensures
            r@ == Seq::<TransactionV>::empty(),
    {
        let r = Mempool { transactions: Vec::new() };
        proof {
            assert(r@ =~= Seq::<TransactionV>::empty());
        }
        r
    }
}

impl Mempool {
    /// Append a submitted transaction.
    pub fn add_transaction(&mut self, tx: Transaction)
        ensures
            final(self)@ == old(self)@.push(tx@),
    {
        let ghost pre = self@;
        let ghost txv = tx@;
        self.transactions.push(tx);
        proof {
            assert(self@ =~= pre.push(txv));
        }
    }

    /// Hand out exactly the pending transactions, in order, and clear the
    /// pool in the same step.
    pub fn take_all(&mut self) -> (r: Vec<Transaction>)
        ensures
            r.deep_view() == old(self)@,
            final(self)@ == Seq::<TransactionV>::empty(),
    {
        let mut drained: Vec<Transaction> = Vec::new();
        core::mem::swap(&mut self.transactions, &mut drained);
        proof {
            assert(self@ =~= Seq::<TransactionV>::empty());
        }
        drained
    }
}

} // verus!
