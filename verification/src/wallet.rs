//! Token wallets: per-asset balances under an address, and address
//! derivation from a public key.

use crate::encoding::str_eq;
use crate::hashing::sha256_hex_of;
use vstd::prelude::*;
use vstd::string::StringExecFns;

verus! {

/// Why a wallet operation fails.
#[derive(Clone, Copy, Debug, PartialEq, Eq, Structural)]
pub enum WalletError {
    /// The balance is smaller than the amount asked for.
    InsufficientFunds,
}

/// The balance map an entry list denotes.
pub open spec fn map_of_entries(entries: Seq<(String, u64)>) -> Map<Seq<char>, u64>
    decreases entries.len(),
{
    if entries.len() == 0 {
        Map::empty()
    } else {
        map_of_entries(entries.drop_last()).insert(entries.last().0@, entries.last().1)
    }
}

/// Asset names appear at most once.
pub open spec fn entries_wf(entries: Seq<(String, u64)>) -> bool {
    forall|i: int, j: int| 0 <= i < j < entries.len() ==> entries[i].0@ != entries[j].0@
}

/// An entry's key decides its balance: with unique keys, the denoted map
/// holds each entry's amount under its asset name.
proof fn lemma_entry_present(entries: Seq<(String, u64)>, i: int, a: Seq<char>)
    requires
        entries_wf(entries),
        0 <= i < entries.len(),
        entries[i].0@ == a,
    ensures
        map_of_entries(entries).contains_key(a),
        map_of_entries(entries)[a] == entries[i].1,
    decreases entries.len(),
{
    if i == entries.len() - 1 {
    } else {
        assert(entries.drop_last()[i] == entries[i]);
        lemma_entry_present(entries.drop_last(), i, a);
        assert(entries.last().0@ != a);
    }
}

/// A name no entry carries is absent from the denoted map.
proof fn lemma_entry_absent(entries: Seq<(String, u64)>, a: Seq<char>)
    requires
        forall|j: int| 0 <= j < entries.len() ==> entries[j].0@ != a,
    ensures
        !map_of_entries(entries).contains_key(a),
    decreases entries.len(),
{
    if entries.len() > 0 {
        assert forall|j: int| 0 <= j < entries.drop_last().len() implies entries.drop_last()[j].0@
            != a by {
            assert(entries.drop_last()[j] == entries[j]);
        }
        lemma_entry_absent(entries.drop_last(), a);
    }
}

/// Replacing an entry under the same asset name rewrites that one key of
/// the denoted map.
proof fn lemma_map_update(entries: Seq<(String, u64)>, i: int, e: (String, u64))
    requires
        entries_wf(entries),
        0 <= i < entries.len(),
        e.0@ == entries[i].0@,
    ensures
        map_of_entries(entries.update(i, e)) == map_of_entries(entries).insert(e.0@, e.1),
    decreases entries.len(),
{
    let updated = entries.update(i, e);
    if i == entries.len() - 1 {
        assert(updated.drop_last() =~= entries.drop_last());
        assert(updated.last() == e);
        assert(map_of_entries(updated) =~= map_of_entries(entries).insert(e.0@, e.1));
    } else {
        assert(updated.drop_last() =~= entries.drop_last().update(i, e));
        assert(updated.last() == entries.last());
        assert(entries.drop_last()[i] == entries[i]);
        lemma_map_update(entries.drop_last(), i, e);
        assert(entries.last().0@ != e.0@);
        assert(map_of_entries(updated) =~= map_of_entries(entries).insert(e.0@, e.1));
    }
}

/// Find the entry holding an asset, if any.
fn find_asset(entries: &Vec<(String, u64)>, asset: &str) -> (r: Option<usize>)
    ensures
        match r {
            Option::Some(i) => i < entries@.len() && entries@[i as int].0@ == asset@,
            Option::None => forall|j: int| 0 <= j < entries@.len() ==> entries@[j].0@ != asset@,
        },
{
    let mut k: usize = 0;
    while k < entries.len()
        invariant
            0 <= k <= entries@.len(),
            forall|j: int| 0 <= j < k ==> entries@[j].0@ != asset@,
        decreases entries@.len() - k,
    {
        if str_eq(entries[k].0.as_str(), asset) {
            return Some(k);
        }
        k += 1;
    }
    None
}

/// A wallet: per-asset balances under an address. A fresh wallet starts
/// with 1000 of the native asset `TRD`.
pub struct TokenWallet {
    pub address: String,
    balances: Vec<(String, u64)>,
}

impl TokenWallet {
    #[verifier::type_invariant]
    spec fn wf(self) -> bool {
        entries_wf(self.balances@)
    }

    /// The wallet's address.
    pub closed spec fn spec_address(&self) -> Seq<char> {
        self.address@
    }

    /// The balance held in an asset; zero for an unknown asset.
    pub closed spec fn balance_of(&self, asset: Seq<char>) -> u64 {
        if map_of_entries(self.balances@).contains_key(asset) {
            map_of_entries(self.balances@)[asset]
        } else {
            0
        }
    }

    /// A wallet under this address holding the initial grant of 1000 TRD.
    pub fn new(address: String) -> (r: TokenWallet)
        ensures
            r.spec_address() == address@,
            r.balance_of("TRD"@) == 1000,
            forall|a: Seq<char>| a != "TRD"@ ==> r.balance_of(a) == 0,
    {
        let mut balances: Vec<(String, u64)> = Vec::new();
        let ghost empty = balances@;
        balances.push((String::from_str("TRD"), 1000));
        let r = TokenWallet { address, balances };
        proof {
            assert(r.balances@.drop_last() =~= empty);
            assert(map_of_entries(empty) =~= Map::<Seq<char>, u64>::empty());
            assert(map_of_entries(r.balances@) =~= Map::<Seq<char>, u64>::empty().insert(
                "TRD"@,
                1000,
            ));
        }
        r
    }

    /// Credit an asset. The balance must stay representable.
    pub fn add_tokens(&mut self, asset: &str, amount: u64)
        requires
            old(self).balance_of(asset@) + amount <= u64::MAX,
        ensures
            final(self).balance_of(asset@) == old(self).balance_of(asset@) + amount,
            forall|a: Seq<char>| a != asset@ ==> final(self).balance_of(a) == old(self).balance_of(
                a,
            ),
            final(self).spec_address() == old(self).spec_address(),
    {
        proof {
            use_type_invariant(&*self);
        }
        let mut entries: Vec<(String, u64)> = Vec::new();
        core::mem::swap(&mut entries, &mut self.balances);
        let ghost orig = entries@;
        match find_asset(&entries, asset) {
            Some(i) => {
                let key = entries[i].0.clone();
                let held = entries[i].1;
                proof {
                    lemma_entry_present(orig, i as int, asset@);
                }
                entries.set(i, (key, held + amount));
                proof {
                    lemma_map_update(orig, i as int, (key, (held + amount) as u64));
                    assert forall|p: int, q: int|
                        0 <= p < q < entries@.len() implies entries@[p].0@ != entries@[q].0@ by {
                        assert(orig[p].0@ != orig[q].0@);
                    }
                }
            },
            None => {
                proof {
                    lemma_entry_absent(orig, asset@);
                }
                entries.push((String::from_str(asset), amount));
                proof {
                    assert(entries@.drop_last() =~= orig);
                    assert(map_of_entries(entries@) =~= map_of_entries(orig).insert(
                        asset@,
                        amount,
                    ));
                }
            },
        }
        self.balances = entries;
    }

    /// Debit an asset, or report `InsufficientFunds` and change nothing.
    pub fn subtract_tokens(&mut self, asset: &str, amount: u64) -> (r: Result<(), WalletError>)
        ensures
            r is Ok <==> old(self).balance_of(asset@) >= amount,
            r is Ok ==> final(self).balance_of(asset@) == old(self).balance_of(asset@) - amount,
            !(r is Ok) ==> final(self).balance_of(asset@) == old(self).balance_of(asset@) && r
                == Err::<(), WalletError>(WalletError::InsufficientFunds),
            forall|a: Seq<char>| a != asset@ ==> final(self).balance_of(a) == old(self).balance_of(
                a,
            ),
            final(self).spec_address() == old(self).spec_address(),
    {
        proof {
            use_type_invariant(&*self);
        }
        let mut entries: Vec<(String, u64)> = Vec::new();
        core::mem::swap(&mut entries, &mut self.balances);
        let ghost orig = entries@;
        let result: Result<(), WalletError>;
        match find_asset(&entries, asset) {
            Some(i) => {
                proof {
                    lemma_entry_present(orig, i as int, asset@);
                }
                let held = entries[i].1;
                if held >= amount {
                    let key = entries[i].0.clone();
                    entries.set(i, (key, held - amount));
                    proof {
                        lemma_map_update(orig, i as int, (key, (held - amount) as u64));
                        assert forall|p: int, q: int|
                            0 <= p < q < entries@.len() implies entries@[p].0@
                            != entries@[q].0@ by {
                            assert(orig[p].0@ != orig[q].0@);
                        }
                    }
                    result = Ok(());
                } else {
                    result = Err(WalletError::InsufficientFunds);
                }
            },
            None => {
                proof {
                    lemma_entry_absent(orig, asset@);
                }
                if amount == 0 {
                    result = Ok(());
                } else {
                    result = Err(WalletError::InsufficientFunds);
                }
            },
        }
        self.balances = entries;
        result
    }

    /// Move an amount of an asset into another wallet: debit here, credit
    /// there, or change neither on insufficient funds.
    pub fn transfer_tokens(
        &mut self,
        recipient: &mut TokenWallet,
        asset: &str,
        amount: u64,
    ) -> (r: Result<(), WalletError>)
        requires
            old(recipient).balance_of(asset@) + amount <= u64::MAX,
        ensures
            r is Ok <==> old(self).balance_of(asset@) >= amount,
            r is Ok ==> final(self).balance_of(asset@) == old(self).balance_of(asset@) - amount
                && final(recipient).balance_of(asset@) == old(recipient).balance_of(asset@)
                + amount,
            !(r is Ok) ==> final(self).balance_of(asset@) == old(self).balance_of(asset@)
                && final(recipient).balance_of(asset@) == old(recipient).balance_of(asset@)
                && r == Err::<(), WalletError>(WalletError::InsufficientFunds),
            forall|a: Seq<char>| a != asset@ ==> final(self).balance_of(a) == old(self).balance_of(
                a,
            ) && final(recipient).balance_of(a) == old(recipient).balance_of(a),
            final(self).spec_address() == old(self).spec_address(),
            final(recipient).spec_address() == old(recipient).spec_address(),
    {
        match self.subtract_tokens(asset, amount) {
            Ok(()) => {
                recipient.add_tokens(asset, amount);
                Ok(())
            },
            Err(e) => Err(e),
        }
    }

    /// The balance held in an asset.
    pub fn get_balance(&self, asset: &str) -> (r: u64)
        ensures
            r == self.balance_of(asset@),
    {
        proof {
            use_type_invariant(&*self);
        }
        match find_asset(&self.balances, asset) {
            Some(i) => {
                proof {
                    lemma_entry_present(self.balances@, i as int, asset@);
                }
                self.balances[i].1
            },
            None => {
                proof {
                    lemma_entry_absent(self.balances@, asset@);
                }
                0
            },
        }
    }
}

/// A wallet address: the hex digest of the 32 public-key bytes.
pub fn generate_address(public_key: &Vec<u8>) -> (r: String)
    ensures
        r@ == sha256_hex_of(public_key@),
{
    crate::hashing::sha256_hex(public_key.as_slice())
}

} // verus!
