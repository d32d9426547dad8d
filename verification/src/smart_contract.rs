//! The smart-contract execution stub: deployable contracts behind a trait,
//! dispatched by address.

use crate::encoding::str_eq;
use vstd::prelude::*;
use vstd::string::StringExecFns;

verus! {

/// A deployable contract. Implementations decide their own results;
/// nothing is promised of them.
pub trait SmartContract {
    fn init(&mut self, params: &str) -> Result<(), String>;

    fn execute(&mut self, input: &str) -> Result<String, String>;
}

/// Whether some entry is filed under this address.
pub open spec fn entries_have(
    entries: Seq<(String, Box<dyn SmartContract>)>,
    a: Seq<char>,
) -> bool {
    exists|i: int| 0 <= i < entries.len() && entries[i].0@ == a
}

/// Find the entry deployed at an address, if any.
fn find_contract(entries: &Vec<(String, Box<dyn SmartContract>)>, address: &str) -> (r: Option<
    usize,
>)
    ensures
        match r {
            Option::Some(i) => i < entries@.len() && entries@[i as int].0@ == address@,
            Option::None => forall|j: int| 0 <= j < entries@.len() ==> entries@[j].0@ != address@,
        },
{
    let mut k: usize = 0;
    while k < entries.len()
        invariant
            0 <= k <= entries@.len(),
            forall|j: int| 0 <= j < k ==> entries@[j].0@ != address@,
        decreases entries@.len() - k,
    {
        if str_eq(entries[k].0.as_str(), address) {
            return Some(k);
        }
        k += 1;
    }
    None
}

/// Deployed contracts, dispatched by address.
pub struct ContractManager {
    contracts: Vec<(String, Box<dyn SmartContract>)>,
}

impl ContractManager {
    /// Whether a contract is deployed at this address.
    pub closed spec fn has_contract(&self, a: Seq<char>) -> bool {
        entries_have(self.contracts@, a)
    }

    /// An empty registry.
    pub fn new() -> (r: ContractManager)
        ensures
            forall|a: Seq<char>| !r.has_contract(a),
    {
        ContractManager { contracts: Vec::new() }
    }

    /// Deploy a contract at an address, replacing whatever was deployed
    /// there.
    pub fn deploy(&mut self, address: String, contract: Box<dyn SmartContract>)
        ensures
            final(self).has_contract(address@),
            forall|a: Seq<char>|
                a != address@ ==> final(self).has_contract(a) == old(self).has_contract(a),
    {
        let ghost orig = self.contracts@;
        match find_contract(&self.contracts, address.as_str()) {
            Some(i) => {
                let ghost addr = address@;
                let mut entries: Vec<(String, Box<dyn SmartContract>)> = Vec::new();
                core::mem::swap(&mut entries, &mut self.contracts);
                let entry = (address, contract);
                let ghost ev = entry;
                entries.set(i, entry);
                self.contracts = entries;
                proof {
                    assert(self.contracts@ == orig.update(i as int, ev));
                    assert(self.contracts@[i as int].0@ == addr);
                    assert forall|a: Seq<char>| a != addr implies self.has_contract(a) == entries_have(
                        orig,
                        a,
                    ) by {
                        if entries_have(orig, a) {
                            let j = choose|j: int|
                                0 <= j < orig.len() && orig[j].0@ == a;
                            assert(self.contracts@[j].0@ == a);
                        }
                        if self.has_contract(a) {
                            let j = choose|j: int|
                                0 <= j < self.contracts@.len() && self.contracts@[j].0@ == a;
                            assert(orig[j].0@ == a);
                        }
                    }
                }
            },
            None => {
                let ghost addr = address@;
                let entry = (address, contract);
                let ghost ev = entry;
                self.contracts.push(entry);
                proof {
                    assert(self.contracts@ == orig.push(ev));
                    assert(self.contracts@[orig.len() as int].0@ == addr);
                    assert forall|a: Seq<char>| a != addr implies self.has_contract(a) == entries_have(
                        orig,
                        a,
                    ) by {
                        if entries_have(orig, a) {
                            let j = choose|j: int|
                                0 <= j < orig.len() && orig[j].0@ == a;
                            assert(self.contracts@[j].0@ == a);
                        }
                        if self.has_contract(a) {
                            let j = choose|j: int|
                                0 <= j < self.contracts@.len() && self.contracts@[j].0@ == a;
                            assert(orig[j].0@ == a);
                        }
                    }
                }
            },
        }
    }

    /// Run the contract deployed at an address, or report that none is
    /// there. Which addresses hold contracts does not change.
    pub fn execute_contract(&mut self, address: &str, input: &str) -> (r: Result<String, String>)
        ensures
            !old(self).has_contract(address@) ==> *final(self) == *old(self) && (r matches Err(m)
                && m@ == "Contract not found"@),
            forall|a: Seq<char>| final(self).has_contract(a) == old(self).has_contract(a),
    {
        let ghost orig = self.contracts@;
        match find_contract(&self.contracts, address) {
            None => Err(String::from_str("Contract not found")),
            Some(i) => {
                let removed = self.contracts.swap_remove(i);
                let ghost removed_key = removed.0@;
                let ghost mid = self.contracts@;
                let (key, mut contract) = removed;
                let out = contract.execute(input);
                let ghost keyv = key@;
                let entry = (key, contract);
                let ghost ev = entry;
                self.contracts.push(entry);
                proof {
                    let n = orig.len() as int;
                    assert(mid == orig.update(i as int, orig.last()).drop_last());
                    assert(self.contracts@ == mid.push(ev));
                    assert(keyv == removed_key);
                    assert(keyv == orig[i as int].0@);
                    assert(self.contracts@.len() == n);
                    assert(self.contracts@[n - 1].0@ == keyv);
                    assert forall|a: Seq<char>| self.has_contract(a) == entries_have(orig, a) by {
                        if entries_have(orig, a) {
                            let j = choose|j: int| 0 <= j < n && orig[j].0@ == a;
                            if j == i {
                                assert(self.contracts@[n - 1].0@ == a);
                            } else if j == n - 1 {
                                if i < n - 1 {
                                    assert(self.contracts@[i as int].0@ == a);
                                } else {
                                    assert(self.contracts@[n - 1].0@ == a);
                                }
                            } else {
                                assert(self.contracts@[j].0@ == a);
                            }
                        }
                        if self.has_contract(a) {
                            let j = choose|j: int|
                                0 <= j < self.contracts@.len() && self.contracts@[j].0@ == a;
                            if j == n - 1 {
                                assert(orig[i as int].0@ == a);
                            } else if j == i {
                                assert(orig[n - 1].0@ == a);
                            } else {
                                assert(orig[j].0@ == a);
                            }
                        }
                    }
                }
                out
            },
        }
    }
}

} // verus!
