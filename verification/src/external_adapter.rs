//! The boundary to other chains: an adapter trait for locking and releasing
//! assets and calling remote contracts, with a simulation default.

use vstd::prelude::*;
use vstd::string::StringExecFns;

verus! {

/// What a chain adapter can be asked to do. Real adapters would reach
/// another network; each one decides through its `spec` predicates which
/// requests it accepts, and its methods must follow them.
pub trait BlockchainAdapter {
    spec fn lock_accepted(&self, asset: Seq<char>, amount: u64, sender: Seq<char>) -> bool;

    spec fn release_accepted(&self, asset: Seq<char>, amount: u64, recipient: Seq<char>) -> bool;

    spec fn call_accepted(
        &self,
        contract_address: Seq<char>,
        method: Seq<char>,
        params: Seq<char>,
    ) -> bool;

    fn lock_asset(&self, asset: &str, amount: u64, sender: &str) -> (r: Result<(), String>)
        ensures
            r is Ok <==> self.lock_accepted(asset@, amount, sender@),
    ;

    fn release_asset(&self, asset: &str, amount: u64, recipient: &str) -> (r: Result<(), String>)
        ensures
            r is Ok <==> self.release_accepted(asset@, amount, recipient@),
    ;

    fn call_smart_contract(&self, contract_address: &str, method: &str, params: &str) -> (r:
        Result<String, String>)
        ensures
            r is Ok <==> self.call_accepted(contract_address@, method@, params@),
    ;
}

/// The simulation adapter: every request succeeds without touching
/// anything.
pub struct DefaultBlockchainAdapter;

impl BlockchainAdapter for DefaultBlockchainAdapter {
    open spec fn lock_accepted(&self, asset: Seq<char>, amount: u64, sender: Seq<char>) -> bool {
        true
    }

    open spec fn release_accepted(
        &self,
        asset: Seq<char>,
        amount: u64,
        recipient: Seq<char>,
    ) -> bool {
        true
    }

    open spec fn call_accepted(
        &self,
        contract_address: Seq<char>,
        method: Seq<char>,
        params: Seq<char>,
    ) -> bool {
        true
    }

    fn lock_asset(&self, asset: &str, amount: u64, sender: &str) -> (r: Result<(), String>) {
        Ok(())
    }

    fn release_asset(&self, asset: &str, amount: u64, recipient: &str) -> (r: Result<(), String>) {
        Ok(())
    }

    fn call_smart_contract(&self, contract_address: &str, method: &str, params: &str) -> (r:
        Result<String, String>) {
        Ok(String::from_str("Simulated contract call succeeded"))
    }
}

} // verus!
