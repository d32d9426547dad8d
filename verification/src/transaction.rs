//! Transactions: construction, content-addressed identifiers, signing,
//! validation, and the Merkle commitment over a batch.

use crate::crypto::{public_key_of, signature_of, signature_verifies, SigningKeypair};
use crate::encoding::{
    append_enc_opt_str, append_enc_str, append_enc_u64, dec_str_of, enc_opt_str_of, enc_str_of,
    enc_u64_of, u64_to_string,
};
use crate::hashing::{sha256_hex_of_str, sha256_hex_str};
use vstd::prelude::*;
use vstd::string::StringExecFns;

verus! {

/// The kind of value movement a transaction records.
#[derive(Clone, Debug)]
pub enum TxType {
    Transfer,
    ContractCall,
    Stake,
}

/// One value movement: an amount of an asset to a recipient.
#[derive(Clone, Debug)]
pub struct TxOutput {
    pub asset: String,
    pub recipient: String,
    pub amount: u64,
}

/// The mathematical value of a `TxOutput`.
#[verifier::ext_equal]
pub ghost struct TxOutputV {
    pub asset: Seq<char>,
    pub recipient: Seq<char>,
    pub amount: u64,
}

impl View for TxOutput {
    type V = TxOutputV;

    open spec fn view(&self) -> TxOutputV {
        TxOutputV { asset: self.asset@, recipient: self.recipient@, amount: self.amount }
    }
}

impl DeepView for TxOutput {
    type V = TxOutputV;

    open spec fn deep_view(&self) -> TxOutputV {
        self.view()
    }
}

/// A record of value movement. The identifier is derived from the
/// economically relevant fields once, at construction; later mutation of a
/// field leaves the identifier stale (callers own that hazard).
#[derive(Clone, Debug)]
pub struct Transaction {
    pub version: u32,
    pub tx_type: TxType,
    pub nonce: u64,
    pub sender: String,
    pub outputs: Vec<TxOutput>,
    pub fee: u64,
    pub gas_limit: Option<u64>,
    pub gas_price: Option<u64>,
    pub payload: Option<String>,
    pub timestamp: u64,
    pub signatures: Vec<Vec<u8>>,
    pub source_network: Option<String>,
    pub target_network: Option<String>,
    pub id: String,
}

/// The mathematical value of a `Transaction`.
#[verifier::ext_equal]
pub ghost struct TransactionV {
    pub version: u32,
    pub tx_type: TxType,
    pub nonce: u64,
    pub sender: Seq<char>,
    pub outputs: Seq<TxOutputV>,
    pub fee: u64,
    pub gas_limit: Option<u64>,
    pub gas_price: Option<u64>,
    pub payload: Option<Seq<char>>,
    pub timestamp: u64,
    pub signatures: Seq<Seq<u8>>,
    pub source_network: Option<Seq<char>>,
    pub target_network: Option<Seq<char>>,
    pub id: Seq<char>,
}

impl View for Transaction {
    type V = TransactionV;

    open spec fn view(&self) -> TransactionV {
        TransactionV {
            version: self.version,
            tx_type: self.tx_type,
            nonce: self.nonce,
            sender: self.sender@,
            outputs: self.outputs.deep_view(),
            fee: self.fee,
            gas_limit: self.gas_limit,
            gas_price: self.gas_price,
            payload: self.payload.deep_view(),
            timestamp: self.timestamp,
            signatures: self.signatures.deep_view(),
            source_network: self.source_network.deep_view(),
            target_network: self.target_network.deep_view(),
            id: self.id@,
        }
    }
}

impl DeepView for Transaction {
    type V = TransactionV;

    open spec fn deep_view(&self) -> TransactionV {
        self.view()
    }
}

/// Why a transaction fails validation.
#[derive(Clone, Copy, Debug, PartialEq, Eq, Structural)]
pub enum TxError {
    /// The outputs and the fee sum to zero, or their sum is not
    /// representable.
    InvalidTransaction,
    /// A contract call without `gas_limit`, `gas_price` and `payload`.
    MissingContractFields,
}

/// The encoding of one output inside an identifier's digest input.
pub open spec fn enc_output_of(o: TxOutputV) -> Seq<char> {
    enc_str_of(o.asset) + enc_str_of(o.recipient) + enc_u64_of(o.amount)
}

/// The outputs of a batch, encoded in order.
pub open spec fn enc_outputs_body(os: Seq<TxOutputV>) -> Seq<char>
    decreases os.len(),
{
    if os.len() == 0 {
        Seq::empty()
    } else {
        enc_outputs_body(os.drop_last()) + enc_output_of(os.last())
    }
}

/// A length-prefixed output batch.
pub open spec fn enc_outputs_of(os: Seq<TxOutputV>) -> Seq<char> {
    dec_str_of(os.len()) + "["@ + enc_outputs_body(os)
}

/// The text a transaction identifier digests: every economically relevant
/// field, length-prefixed so that no two field lists render alike.
pub open spec fn tx_id_input(t: TransactionV) -> Seq<char> {
    enc_u64_of(t.version as u64) + enc_u64_of(t.nonce) + enc_str_of(t.sender) + enc_outputs_of(
        t.outputs,
    ) + enc_u64_of(t.fee) + enc_opt_str_of(t.source_network) + enc_opt_str_of(t.target_network)
        + enc_u64_of(t.timestamp) + enc_opt_str_of(t.payload)
}

/// A transaction's content-addressed identifier.
pub open spec fn tx_id_of(t: TransactionV) -> Seq<char> {
    sha256_hex_of_str(tx_id_input(t))
}

/// The message a transaction signature covers: the identifier followed by
/// the timestamp in decimal.
pub open spec fn tx_sign_msg(t: TransactionV) -> Seq<char> {
    t.id + dec_str_of(t.timestamp as nat)
}

/// Whether at least one stored signature verifies for the transaction's
/// signing message under this public key.
pub open spec fn tx_verifies(t: TransactionV, pk: Seq<u8>) -> bool {
    exists|i: int|
        0 <= i < t.signatures.len() && signature_verifies(pk, tx_sign_msg(t), t.signatures[i])
}

/// The sum of a batch's output amounts, over the unbounded integers.
pub open spec fn sum_amounts(os: Seq<TxOutputV>) -> int
    decreases os.len(),
{
    if os.len() == 0 {
        0
    } else {
        sum_amounts(os.drop_last()) + os.last().amount
    }
}

/// A prefix of a batch never sums to more than the whole batch.
proof fn lemma_sum_amounts_prefix(os: Seq<TxOutputV>, i: int)
    requires
        0 <= i <= os.len(),
    ensures
        sum_amounts(os.take(i)) <= sum_amounts(os),
    decreases os.len(),
{
    if i == os.len() {
        assert(os.take(i) =~= os);
    } else {
        assert(os.drop_last().take(i) =~= os.take(i));
        lemma_sum_amounts_prefix(os.drop_last(), i);
    }
}

/// The views of a list of hash strings.
pub open spec fn strs_views(s: Seq<String>) -> Seq<Seq<char>> {
    s.map_values(|x: String| x@)
}

/// Duplicate the last hash when a level has odd length.
pub open spec fn dup_if_odd(hs: Seq<Seq<char>>) -> Seq<Seq<char>> {
    if hs.len() % 2 == 1 {
        hs.push(hs.last())
    } else {
        hs
    }
}

/// Digest adjacent pairs of a level into the next level.
pub open spec fn pair_hashes(hs: Seq<Seq<char>>) -> Seq<Seq<char>>
    recommends
        hs.len() % 2 == 0,
    decreases hs.len(),
{
    if hs.len() < 2 {
        Seq::empty()
    } else {
        seq![sha256_hex_of_str(hs[0] + hs[1])] + pair_hashes(hs.skip(2))
    }
}

proof fn lemma_pair_hashes_len(hs: Seq<Seq<char>>)
    ensures
        pair_hashes(hs).len() == hs.len() / 2,
    decreases hs.len(),
{
    if hs.len() >= 2 {
        lemma_pair_hashes_len(hs.skip(2));
    }
}

proof fn lemma_pair_hashes_snoc(hs: Seq<Seq<char>>, a: Seq<char>, b: Seq<char>)
    requires
        hs.len() % 2 == 0,
    ensures
        pair_hashes(hs + seq![a, b]) == pair_hashes(hs) + seq![sha256_hex_of_str(a + b)],
    decreases hs.len(),
{
    let whole = hs + seq![a, b];
    if hs.len() == 0 {
        assert(whole[0] == a && whole[1] == b);
        assert(whole.skip(2) =~= Seq::<Seq<char>>::empty());
        assert(whole.skip(2).len() == 0);
        assert(pair_hashes(whole.skip(2)) =~= Seq::<Seq<char>>::empty());
        assert(pair_hashes(whole) =~= seq![sha256_hex_of_str(a + b)]);
        assert(pair_hashes(hs) =~= Seq::<Seq<char>>::empty());
    } else {
        assert(whole.skip(2) =~= hs.skip(2) + seq![a, b]);
        lemma_pair_hashes_snoc(hs.skip(2), a, b);
        assert(whole[0] == hs[0] && whole[1] == hs[1]);
        assert(pair_hashes(whole) =~= pair_hashes(hs) + seq![sha256_hex_of_str(a + b)]);
    }
}

/// Fold a level of hashes down to a single commitment: duplicate the last
/// hash of an odd level, digest adjacent pairs, and repeat.
pub open spec fn merkle_fold(hs: Seq<Seq<char>>) -> Seq<char>
    decreases hs.len(),
        via merkle_fold_decreases
{
    if hs.len() == 0 {
        sha256_hex_of_str(Seq::empty())
    } else if hs.len() == 1 {
        hs[0]
    } else {
        merkle_fold(pair_hashes(dup_if_odd(hs)))
    }
}

#[via_fn]
proof fn merkle_fold_decreases(hs: Seq<Seq<char>>) {
    if hs.len() >= 2 {
        lemma_pair_hashes_len(dup_if_odd(hs));
    }
}

/// The Merkle commitment over a transaction batch: the digest of the empty
/// string for an empty batch, else the fold over the identifiers in batch
/// order.
pub open spec fn merkle_root_of(ts: Seq<TransactionV>) -> Seq<char> {
    if ts.len() == 0 {
        sha256_hex_of_str(Seq::empty())
    } else {
        merkle_fold(ts.map_values(|t: TransactionV| t.id))
    }
}

/// The Merkle commitment is a function of the transaction batch alone: equal
/// batches always give equal roots, in any two calls.
pub proof fn lemma_merkle_root_deterministic(t1: Seq<TransactionV>, t2: Seq<TransactionV>)
    requires
        t1 == t2,
    ensures
        merkle_root_of(t1) == merkle_root_of(t2),
{
}

/// Fold a batch of transactions into its Merkle root.
pub fn calculate_merkle_root(transactions: &[Transaction]) -> (r: String)
    ensures
        r@ == merkle_root_of(transactions.deep_view()),
{
    let ghost leaves = transactions.deep_view().map_values(|t: TransactionV| t.id);
    if transactions.len() == 0 {
        let r = sha256_hex_str("");
        proof {
            reveal_strlit("");
            assert(""@ =~= Seq::<char>::empty());
        }
        return r;
    }
    let mut hashes: Vec<String> = Vec::new();
    let mut i: usize = 0;
    while i < transactions.len()
        invariant
            0 <= i <= transactions@.len(),
            leaves == transactions.deep_view().map_values(|t: TransactionV| t.id),
            strs_views(hashes@) == leaves.take(i as int),
        decreases transactions@.len() - i,
    {
        let ghost pre = hashes@;
        let leaf = transactions[i].id.clone();
        hashes.push(leaf);
        proof {
            let k = i as int;
            assert(leaves.len() == transactions@.len());
            assert(strs_views(pre).len() == pre.len());
            assert(pre.len() == k);
            assert(hashes@.len() == k + 1);
            assert(transactions.deep_view()[k] == transactions@[k].deep_view());
            assert(leaves[k] == transactions@[k].id@);
            assert forall|m: int| 0 <= m < hashes@.len() implies strs_views(hashes@)[m]
                == leaves.take(k + 1)[m] by {
                assert(strs_views(hashes@)[m] == hashes@[m]@);
                if m < k {
                    assert(hashes@[m] == pre[m]);
                    assert(strs_views(pre)[m] == pre[m]@);
                }
            }
            assert(strs_views(hashes@).len() == k + 1);
            assert(strs_views(hashes@) =~= leaves.take(k + 1));
        }
        i += 1;
    }
    proof {
        assert(leaves.take(transactions@.len() as int) =~= leaves);
    }
    let ghost target = merkle_fold(strs_views(hashes@));
    while hashes.len() > 1
        invariant
            1 <= hashes@.len(),
            merkle_fold(strs_views(hashes@)) == target,
        decreases hashes@.len(),
    {
        let ghost entry = strs_views(hashes@);
        if hashes.len() % 2 != 0 {
            let last = hashes[hashes.len() - 1].clone();
            hashes.push(last);
        }
        proof {
            assert(strs_views(hashes@) =~= dup_if_odd(entry));
        }
        let ghost level = strs_views(hashes@);
        let mut new_level: Vec<String> = Vec::new();
        let mut j: usize = 0;
        while j < hashes.len()
            invariant
                j % 2 == 0,
                0 <= j <= hashes@.len(),
                strs_views(hashes@) == level,
                level.len() % 2 == 0,
                strs_views(new_level@) == pair_hashes(level.take(j as int)),
            decreases hashes@.len() - j,
        {
            let mut combined = hashes[j].clone();
            combined.append(hashes[j + 1].as_str());
            new_level.push(sha256_hex_str(combined.as_str()));
            proof {
                lemma_pair_hashes_snoc(level.take(j as int), level[j as int], level[j + 1 as int]);
                assert(level.take(j + 2 as int) =~= level.take(j as int) + seq![
                    level[j as int],
                    level[j + 1 as int],
                ]);
                assert(strs_views(new_level@) =~= pair_hashes(level.take(j + 2 as int)));
            }
            j += 2;
        }
        proof {
            assert(level.take(level.len() as int) =~= level);
            lemma_pair_hashes_len(level);
            assert(entry.len() >= 2);
        }
        hashes = new_level;
    }
    let r = hashes[0].clone();
    r
}

/// Relies on chrono's `Utc::now`: the current Unix time in seconds, taken as
/// unsigned. Nothing is assumed of the clock's value.
#[verifier::external_body]
fn current_timestamp() -> u64 {
    chrono::Utc::now().timestamp() as u64
}

/// Append the rendering of `enc_output_of` to `out`.
fn append_enc_output(out: &mut String, o: &TxOutput)
    ensures
        final(out)@ == old(out)@ + enc_output_of(o@),
{
    append_enc_str(out, o.asset.as_str());
    append_enc_str(out, o.recipient.as_str());
    append_enc_u64(out, o.amount);
}

/// Append the rendering of `enc_outputs_of` to `out`.
pub(crate) fn append_enc_outputs(out: &mut String, os: &Vec<TxOutput>)
    ensures
        final(out)@ == old(out)@ + enc_outputs_of(os.deep_view()),
{
    let n = u64_to_string(os.len() as u64);
    out.append(n.as_str());
    out.append("[");
    let ghost base: Seq<char> = out@;
    let mut i: usize = 0;
    while i < os.len()
        invariant
            0 <= i <= os@.len(),
            out@ == base + enc_outputs_body(os.deep_view().take(i as int)),
        decreases os@.len() - i,
    {
        append_enc_output(out, &os[i]);
        proof {
            assert(os.deep_view().take(i + 1 as int).drop_last() =~= os.deep_view().take(i as int));
            assert(os.deep_view().take(i + 1 as int).last() == os@[i as int].deep_view());
        }
        i += 1;
    }
    proof {
        assert(os.deep_view().take(os@.len() as int) =~= os.deep_view());
    }
}

impl Transaction {
    /// A fresh transfer from `sender`, stamped with the current time, its
    /// identifier computed from its content.
    pub fn new(sender: String, outputs: Vec<TxOutput>, fee: u64) -> (r: Transaction)
        ensures
            r@.version == 1,
            r@.tx_type is Transfer,
            r@.nonce == 0,
            r@.sender == sender@,
            r@.outputs == outputs.deep_view(),
            r@.fee == fee,
            r@.gas_limit is None,
            r@.gas_price is None,
            r@.payload is None,
            r@.signatures == Seq::<Seq<u8>>::empty(),
            r@.source_network is None,
            r@.target_network is None,
            r@.id == tx_id_of(r@),
    {
        let mut tx = Transaction {
            version: 1,
            tx_type: TxType::Transfer,
            nonce: 0,
            sender,
            outputs,
            fee,
            gas_limit: None,
            gas_price: None,
            payload: None,
            timestamp: current_timestamp(),
            signatures: Vec::new(),
            source_network: None,
            target_network: None,
            id: String::new(),
        };
        let id = tx.calculate_id();
        tx.id = id;
        tx
    }

    /// A fresh transfer that also names the source and target networks of a
    /// cross-chain movement.
    pub fn new_cross_chain(
        sender: String,
        outputs: Vec<TxOutput>,
        fee: u64,
        source_network: String,
        target_network: String,
    ) -> (r: Transaction)
        ensures
            r@.version == 1,
            r@.tx_type is Transfer,
            r@.nonce == 0,
            r@.sender == sender@,
            r@.outputs == outputs.deep_view(),
            r@.fee == fee,
            r@.gas_limit is None,
            r@.gas_price is None,
            r@.payload is None,
            r@.signatures == Seq::<Seq<u8>>::empty(),
            r@.source_network == Some(source_network@),
            r@.target_network == Some(target_network@),
            r@.id == tx_id_of(r@),
    {
        let mut tx = Transaction {
            version: 1,
            tx_type: TxType::Transfer,
            nonce: 0,
            sender,
            outputs,
            fee,
            gas_limit: None,
            gas_price: None,
            payload: None,
            timestamp: current_timestamp(),
            signatures: Vec::new(),
            source_network: Some(source_network),
            target_network: Some(target_network),
            id: String::new(),
        };
        let id = tx.calculate_id();
        tx.id = id;
        tx
    }

    /// Digest the transaction's content into its identifier.
    pub fn calculate_id(&self) -> (r: String)
        ensures
            r@ == tx_id_of(self@),
    {
        let mut data = String::new();
        append_enc_u64(&mut data, self.version as u64);
        append_enc_u64(&mut data, self.nonce);
        append_enc_str(&mut data, self.sender.as_str());
        append_enc_outputs(&mut data, &self.outputs);
        append_enc_u64(&mut data, self.fee);
        append_enc_opt_str(&mut data, &self.source_network);
        append_enc_opt_str(&mut data, &self.target_network);
        append_enc_u64(&mut data, self.timestamp);
        append_enc_opt_str(&mut data, &self.payload);
        proof {
            assert(data@ =~= tx_id_input(self@));
        }
        sha256_hex_str(data.as_str())
    }

    /// Append a signature over the identifier and timestamp. Earlier
    /// signatures stay; a transaction may carry several.
    pub fn sign(&mut self, keypair: &SigningKeypair)
        ensures
            final(self)@ == (TransactionV {
                signatures: old(self)@.signatures.push(
                    signature_of(keypair.key_bytes(), tx_sign_msg(old(self)@)),
                ),
                ..old(self)@
            }),
            tx_verifies(final(self)@, public_key_of(keypair.key_bytes())),
    {
        let mut msg = self.id.clone();
        let ts = u64_to_string(self.timestamp);
        msg.append(ts.as_str());
        let sig = keypair.sign_str(msg.as_str());
        let ghost sigv = sig@;
        self.signatures.push(sig);
        proof {
            assert(self@.signatures =~~= old(self)@.signatures.push(sigv));
            assert(self@ =~~= (TransactionV {
                signatures: old(self)@.signatures.push(
                    signature_of(keypair.key_bytes(), tx_sign_msg(old(self)@)),
                ),
                ..old(self)@
            }));
            assert(tx_sign_msg(self@) == tx_sign_msg(old(self)@));
            assert(signature_verifies(
                public_key_of(keypair.key_bytes()),
                tx_sign_msg(self@),
                self@.signatures[self@.signatures.len() - 1],
            ));
        }
    }

    /// Whether any stored signature verifies under this 32-byte public key.
    pub fn verify(&self, public_key: &Vec<u8>) -> (r: bool)
        ensures
            r == tx_verifies(self@, public_key@),
    {
        let mut msg = self.id.clone();
        let ts = u64_to_string(self.timestamp);
        msg.append(ts.as_str());
        let mut i: usize = 0;
        while i < self.signatures.len()
            invariant
                0 <= i <= self.signatures@.len(),
                msg@ == tx_sign_msg(self@),
                forall|j: int|
                    0 <= j < i ==> !signature_verifies(
                        public_key@,
                        tx_sign_msg(self@),
                        self@.signatures[j],
                    ),
            decreases self.signatures@.len() - i,
        {
            let hit = crate::crypto::verify_signature_bytes(
                public_key.as_slice(),
                msg.as_str(),
                self.signatures[i].as_slice(),
            );
            proof {
                assert(self@.signatures[i as int] =~= self.signatures@[i as int]@);
            }
            if hit {
                return true;
            }
            i += 1;
        }
        false
    }

    /// The output amounts plus the fee, when they fit in a `u64`.
    fn checked_total(&self) -> (r: Option<u64>)
        ensures
            match r {
                Some(t) => t == sum_amounts(self@.outputs) + self@.fee,
                None => sum_amounts(self@.outputs) + self@.fee > u64::MAX,
            },
    {
        let mut total: u64 = 0;
        let mut i: usize = 0;
        while i < self.outputs.len()
            invariant
                0 <= i <= self.outputs@.len(),
                total == sum_amounts(self@.outputs.take(i as int)),
            decreases self.outputs@.len() - i,
        {
            proof {
                assert(self@.outputs.take(i + 1 as int).drop_last() =~= self@.outputs.take(
                    i as int,
                ));
                assert(self@.outputs.take(i + 1 as int).last() == self@.outputs[i as int]);
            }
            match total.checked_add(self.outputs[i].amount) {
                Some(t) => {
                    total = t;
                },
                None => {
                    proof {
                        lemma_sum_amounts_prefix(self@.outputs, i + 1 as int);
                    }
                    return None;
                },
            }
            i += 1;
        }
        proof {
            assert(self@.outputs.take(self.outputs@.len() as int) =~= self@.outputs);
        }
        total.checked_add(self.fee)
    }

    /// Reject a transaction whose outputs and fee sum to zero or overflow,
    /// and a contract call missing any of its gas or payload fields.
    pub fn validate(&self) -> (r: Result<(), TxError>)
        ensures
            ({
                let total = sum_amounts(self@.outputs) + self@.fee;
                let contract_ok = self@.tx_type is ContractCall ==> (self@.gas_limit is Some
                    && self@.gas_price is Some && self@.payload is Some);
                &&& (r is Ok <==> 0 < total <= u64::MAX && contract_ok)
                &&& (r == Err::<(), TxError>(TxError::InvalidTransaction) <==> !(0 < total <= u64::MAX))
                &&& (r == Err::<(), TxError>(TxError::MissingContractFields) <==> (0 < total <= u64::MAX
                    && !contract_ok))
            }),
    {
        match self.checked_total() {
            None => Err(TxError::InvalidTransaction),
            Some(0) => Err(TxError::InvalidTransaction),
            Some(_) => {
                match self.tx_type {
                    TxType::ContractCall => {
                        if self.gas_limit.is_none() || self.gas_price.is_none()
                            || self.payload.is_none() {
                            Err(TxError::MissingContractFields)
                        } else {
                            Ok(())
                        }
                    },
                    _ => Ok(()),
                }
            },
        }
    }
}

} // verus!
