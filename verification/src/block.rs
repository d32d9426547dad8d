//! Blocks: a header over a transaction batch, with hashing, signing,
//! proof-of-work mining, and duplicate-hash detection.

use crate::crypto::{public_key_of, signature_of, signature_verifies, SigningKeypair};
use crate::encoding::{
    append_enc_bytes, append_enc_opt_str, append_enc_opt_u64, append_enc_str, append_enc_u64,
    dec_str_of, enc_bytes_of, enc_opt_str_of, enc_opt_u64_of, enc_str_of, enc_u64_of, str_eq,
    u64_to_string,
};
use crate::hashing::{has_leading_zeros, leading_zeros_at_least, sha256_hex_of_str, sha256_hex_str};
use crate::transaction::{
    enc_outputs_of, merkle_root_of, Transaction, TransactionV, TxType,
};
use rayon::iter::IntoParallelIterator;
use rayon::iter::ParallelIterator;
use vstd::prelude::*;
use vstd::seq_lib::lemma_concat_associative;
use vstd::string::StringExecFns;

verus! {

/// A block: header fields over an ordered transaction batch. `hash` and
/// `nonce` stay unset until mining completes.
#[derive(Clone, Debug)]
pub struct Block {
    pub index: u64,
    pub previous_hash: String,
    pub timestamp: u64,
    pub transactions: Vec<Transaction>,
    pub consensus_algorithm: String,
    pub signature: Option<Vec<u8>>,
    pub hash: Option<String>,
    pub nonce: u64,
    pub miner_reward: u64,
    pub transaction_fee: u64,
}

/// The mathematical value of a `Block`.
#[verifier::ext_equal]
pub ghost struct BlockV {
    pub index: u64,
    pub previous_hash: Seq<char>,
    pub timestamp: u64,
    pub transactions: Seq<TransactionV>,
    pub consensus_algorithm: Seq<char>,
    pub signature: Option<Seq<u8>>,
    pub hash: Option<Seq<char>>,
    pub nonce: u64,
    pub miner_reward: u64,
    pub transaction_fee: u64,
}

impl View for Block {
    type V = BlockV;

    open spec fn view(&self) -> BlockV {
        BlockV {
            index: self.index,
            previous_hash: self.previous_hash@,
            timestamp: self.timestamp,
            transactions: self.transactions.deep_view(),
            consensus_algorithm: self.consensus_algorithm@,
            signature: self.signature.deep_view(),
            hash: self.hash.deep_view(),
            nonce: self.nonce,
            miner_reward: self.miner_reward,
            transaction_fee: self.transaction_fee,
        }
    }
}

impl DeepView for Block {
    type V = BlockV;

    open spec fn deep_view(&self) -> BlockV {
        self.view()
    }
}

/// Adjust a mining difficulty from the age of the previous block: one step
/// harder when blocks arrive in under a minute, one step easier (never below
/// zero) when they take more than two, unchanged otherwise.
pub fn adjust_difficulty(difficulty: u64, elapsed_seconds: i64) -> (r: u64)
    ensures
        elapsed_seconds < 60 ==> r == if difficulty == u64::MAX {
            u64::MAX as int
        } else {
            difficulty + 1
        },
        elapsed_seconds > 120 ==> r == if difficulty == 0 {
            0
        } else {
            difficulty - 1
        },
        60 <= elapsed_seconds <= 120 ==> r == difficulty,
{
    if elapsed_seconds < 60 {
        if difficulty == u64::MAX {
            u64::MAX
        } else {
            difficulty + 1
        }
    } else if elapsed_seconds > 120 {
        if difficulty == 0 {
            0
        } else {
            difficulty - 1
        }
    } else {
        difficulty
    }
}

/// The text the mining digest covers: index, previous hash, timestamp,
/// Merkle root and nonce, concatenated with numbers in decimal. The fields
/// are joined without separators, so material can in principle shift across
/// field boundaries; the signing message, by contrast, is length-prefixed.
pub open spec fn block_hash_input(
    index: u64,
    previous_hash: Seq<char>,
    timestamp: u64,
    merkle_root: Seq<char>,
    nonce: u64,
) -> Seq<char> {
    dec_str_of(index as nat) + previous_hash + dec_str_of(timestamp as nat) + merkle_root
        + dec_str_of(nonce as nat)
}

/// A block's mining hash.
pub open spec fn block_hash_of(
    index: u64,
    previous_hash: Seq<char>,
    timestamp: u64,
    merkle_root: Seq<char>,
    nonce: u64,
) -> Seq<char> {
    sha256_hex_of_str(block_hash_input(index, previous_hash, timestamp, merkle_root, nonce))
}

/// The one-character tag of a transaction kind inside the batch encoding.
pub open spec fn tx_type_code(t: TxType) -> Seq<char> {
    match t {
        TxType::Transfer => "T"@,
        TxType::ContractCall => "C"@,
        TxType::Stake => "S"@,
    }
}

/// The signatures of a transaction, each length-prefixed, in order.
pub open spec fn enc_sigs_body(sigs: Seq<Seq<u8>>) -> Seq<char>
    decreases sigs.len(),
{
    if sigs.len() == 0 {
        Seq::empty()
    } else {
        enc_sigs_body(sigs.drop_last()) + enc_bytes_of(sigs.last())
    }
}

/// A length-prefixed signature list.
pub open spec fn enc_sigs_of(sigs: Seq<Seq<u8>>) -> Seq<char> {
    dec_str_of(sigs.len()) + "("@ + enc_sigs_body(sigs)
}

/// The encoding of one whole transaction inside a block's signing message:
/// every field, length-prefixed where variable.
pub open spec fn enc_tx_of(t: TransactionV) -> Seq<char> {
    enc_u64_of(t.version as u64) + tx_type_code(t.tx_type) + enc_u64_of(t.nonce) + enc_str_of(
        t.sender,
    ) + enc_outputs_of(t.outputs) + enc_u64_of(t.fee) + enc_opt_u64_of(t.gas_limit)
        + enc_opt_u64_of(t.gas_price) + enc_opt_str_of(t.payload) + enc_u64_of(t.timestamp)
        + enc_sigs_of(t.signatures) + enc_opt_str_of(t.source_network) + enc_opt_str_of(
        t.target_network,
    ) + enc_str_of(t.id)
}

/// The transactions of a batch, encoded in order.
pub open spec fn enc_txs_body(ts: Seq<TransactionV>) -> Seq<char>
    decreases ts.len(),
{
    if ts.len() == 0 {
        Seq::empty()
    } else {
        enc_txs_body(ts.drop_last()) + enc_tx_of(ts.last())
    }
}

/// A length-prefixed transaction batch.
pub open spec fn enc_txs_of(ts: Seq<TransactionV>) -> Seq<char> {
    dec_str_of(ts.len()) + "{"@ + enc_txs_body(ts)
}

/// The message a block signature covers: index, previous hash and timestamp
/// with the encoded batch. The nonce and hash are not covered; signing
/// precedes mining.
pub open spec fn block_sign_msg(b: BlockV) -> Seq<char> {
    dec_str_of(b.index as nat) + b.previous_hash + dec_str_of(b.timestamp as nat) + enc_txs_of(
        b.transactions,
    )
}

/// Whether the block carries a signature that verifies for its signing
/// message under this public key.
pub open spec fn block_sig_verifies(b: BlockV, pk: Seq<u8>) -> bool {
    match b.signature {
        Option::None => false,
        Option::Some(s) => signature_verifies(pk, block_sign_msg(b), s),
    }
}

/// No block of the chain carries this hash.
pub open spec fn hash_is_unique(chain: Seq<BlockV>, h: Seq<char>) -> bool {
    forall|i: int| 0 <= i < chain.len() ==> #[trigger] chain[i].hash != Some(h)
}

/// Append the rendering of `enc_sigs_of` to `out`.
fn append_enc_sigs(out: &mut String, sigs: &Vec<Vec<u8>>)
    ensures
        final(out)@ == old(out)@ + enc_sigs_of(sigs.deep_view()),
{
    let n = u64_to_string(sigs.len() as u64);
    out.append(n.as_str());
    out.append("(");
    let ghost base: Seq<char> = out@;
    let mut i: usize = 0;
    while i < sigs.len()
        invariant
            0 <= i <= sigs@.len(),
            out@ == base + enc_sigs_body(sigs.deep_view().take(i as int)),
        decreases sigs@.len() - i,
    {
        append_enc_bytes(out, &sigs[i]);
        proof {
            assert(sigs.deep_view().take(i + 1 as int).drop_last() =~= sigs.deep_view().take(
                i as int,
            ));
            assert(sigs.deep_view().take(i + 1 as int).last() =~= sigs@[i as int]@);
        }
        i += 1;
    }
    proof {
        assert(sigs.deep_view().take(sigs@.len() as int) =~= sigs.deep_view());
    }
}

/// Append the rendering of `enc_tx_of` to `out`.
fn append_enc_tx(out: &mut String, t: &Transaction)
    ensures
        final(out)@ == old(out)@ + enc_tx_of(t@),
{
    let ghost o0: Seq<char> = old(out)@;
    let ghost mut acc: Seq<char> = Seq::empty();
    append_enc_u64(out, t.version as u64);
    proof {
        acc = enc_u64_of(t@.version as u64);
    }
    match t.tx_type {
        TxType::Transfer => out.append("T"),
        TxType::ContractCall => out.append("C"),
        TxType::Stake => out.append("S"),
    }
    proof {
        lemma_concat_associative(o0, acc, tx_type_code(t@.tx_type));
        acc = acc + tx_type_code(t@.tx_type);
        assert(out@ == o0 + acc);
    }
    append_enc_u64(out, t.nonce);
    proof {
        lemma_concat_associative(o0, acc, enc_u64_of(t@.nonce));
        acc = acc + enc_u64_of(t@.nonce);
        assert(out@ == o0 + acc);
    }
    append_enc_str(out, t.sender.as_str());
    proof {
        lemma_concat_associative(o0, acc, enc_str_of(t@.sender));
        acc = acc + enc_str_of(t@.sender);
        assert(out@ == o0 + acc);
    }
    crate::transaction::append_enc_outputs(out, &t.outputs);
    proof {
        lemma_concat_associative(o0, acc, enc_outputs_of(t@.outputs));
        acc = acc + enc_outputs_of(t@.outputs);
        assert(out@ == o0 + acc);
    }
    append_enc_u64(out, t.fee);
    proof {
        lemma_concat_associative(o0, acc, enc_u64_of(t@.fee));
        acc = acc + enc_u64_of(t@.fee);
        assert(out@ == o0 + acc);
    }
    append_enc_opt_u64(out, &t.gas_limit);
    proof {
        lemma_concat_associative(o0, acc, enc_opt_u64_of(t@.gas_limit));
        acc = acc + enc_opt_u64_of(t@.gas_limit);
        assert(out@ == o0 + acc);
    }
    append_enc_opt_u64(out, &t.gas_price);
    proof {
        lemma_concat_associative(o0, acc, enc_opt_u64_of(t@.gas_price));
        acc = acc + enc_opt_u64_of(t@.gas_price);
        assert(out@ == o0 + acc);
    }
    append_enc_opt_str(out, &t.payload);
    proof {
        lemma_concat_associative(o0, acc, enc_opt_str_of(t@.payload));
        acc = acc + enc_opt_str_of(t@.payload);
        assert(out@ == o0 + acc);
    }
    append_enc_u64(out, t.timestamp);
    proof {
        lemma_concat_associative(o0, acc, enc_u64_of(t@.timestamp));
        acc = acc + enc_u64_of(t@.timestamp);
        assert(out@ == o0 + acc);
    }
    append_enc_sigs(out, &t.signatures);
    proof {
        lemma_concat_associative(o0, acc, enc_sigs_of(t@.signatures));
        acc = acc + enc_sigs_of(t@.signatures);
        assert(out@ == o0 + acc);
    }
    append_enc_opt_str(out, &t.source_network);
    proof {
        lemma_concat_associative(o0, acc, enc_opt_str_of(t@.source_network));
        acc = acc + enc_opt_str_of(t@.source_network);
        assert(out@ == o0 + acc);
    }
    append_enc_opt_str(out, &t.target_network);
    proof {
        lemma_concat_associative(o0, acc, enc_opt_str_of(t@.target_network));
        acc = acc + enc_opt_str_of(t@.target_network);
        assert(out@ == o0 + acc);
    }
    append_enc_str(out, t.id.as_str());
    proof {
        lemma_concat_associative(o0, acc, enc_str_of(t@.id));
        acc = acc + enc_str_of(t@.id);
        assert(out@ == o0 + acc);
        assert(acc == enc_tx_of(t@));
    }
}

/// Append the rendering of `enc_txs_of` to `out`.
fn append_enc_txs(out: &mut String, ts: &Vec<Transaction>)
    ensures
        final(out)@ == old(out)@ + enc_txs_of(ts.deep_view()),
{
    let n = u64_to_string(ts.len() as u64);
    out.append(n.as_str());
    out.append("{");
    let ghost base: Seq<char> = out@;
    let mut i: usize = 0;
    while i < ts.len()
        invariant
            0 <= i <= ts@.len(),
            out@ == base + enc_txs_body(ts.deep_view().take(i as int)),
        decreases ts@.len() - i,
    {
        append_enc_tx(out, &ts[i]);
        proof {
            assert(ts.deep_view().take(i + 1 as int).drop_last() =~= ts.deep_view().take(i as int));
            assert(ts.deep_view().take(i + 1 as int).last() == ts@[i as int]@);
        }
        i += 1;
    }
    proof {
        assert(ts.deep_view().take(ts@.len() as int) =~= ts.deep_view());
    }
}

/// Decide whether a nonce yields a hash with enough leading zeros.
fn nonce_meets_target(
    index: u64,
    previous_hash: &str,
    timestamp: u64,
    merkle_root: &str,
    nonce: u64,
    difficulty: u64,
) -> (r: bool)
    ensures
        r == leading_zeros_at_least(
            block_hash_of(index, previous_hash@, timestamp, merkle_root@, nonce),
            difficulty as nat,
        ),
{
    let h = Block::calculate_hash(index, previous_hash, timestamp, merkle_root, nonce);
    has_leading_zeros(h.as_str(), difficulty)
}

/// Relies on rayon's `find_first` over the nonce range: a returned nonce
/// satisfies the predicate decided by the closure, which only calls
/// `nonce_meets_target`, and `None` comes back only when no nonce satisfies
/// it.
#[verifier::external_body]
fn parallel_find_nonce(
    index: u64,
    previous_hash: &str,
    timestamp: u64,
    merkle_root: &str,
    difficulty: u64,
) -> (r: Option<u64>)
    ensures
        match r {
            Option::Some(n) => leading_zeros_at_least(
                block_hash_of(index, previous_hash@, timestamp, merkle_root@, n),
                difficulty as nat,
            ),
            Option::None => forall|n: u64|
                !leading_zeros_at_least(
                    block_hash_of(index, previous_hash@, timestamp, merkle_root@, n),
                    difficulty as nat,
                ),
        },
{
    (0u64..=u64::MAX).into_par_iter().find_first(
        |&nonce| nonce_meets_target(index, previous_hash, timestamp, merkle_root, nonce, difficulty),
    )
}

impl Block {
    /// A fresh, unsigned, unmined block over a batch, with the fixed miner
    /// reward of 50 and transaction fee of 5.
    pub fn new(
        index: u64,
        previous_hash: String,
        timestamp: u64,
        transactions: Vec<Transaction>,
        consensus_algorithm: String,
    ) -> (r: Block)
        ensures
            r@ == (BlockV {
                index,
                previous_hash: previous_hash@,
                timestamp,
                transactions: transactions.deep_view(),
                consensus_algorithm: consensus_algorithm@,
                signature: None,
                hash: None,
                nonce: 0,
                miner_reward: 50,
                transaction_fee: 5,
            }),
    {
        let r = Block {
            index,
            previous_hash,
            timestamp,
            transactions,
            consensus_algorithm,
            signature: None,
            hash: None,
            nonce: 0,
            miner_reward: 50,
            transaction_fee: 5,
        };
        proof {
            assert(r.signature.deep_view() =~= Option::<Seq<u8>>::None);
            assert(r.hash.deep_view() =~= Option::<Seq<char>>::None);
        }
        r
    }

    /// The Merkle commitment over this block's batch.
    pub fn calculate_merkle_root(&self) -> (r: String)
        ensures
            r@ == merkle_root_of(self@.transactions),
    {
        let batch = self.transactions.as_slice();
        proof {
            assert(batch.deep_view() =~= self@.transactions);
        }
        crate::transaction::calculate_merkle_root(batch)
    }

    /// The mining hash of a header: digest index, previous hash, timestamp,
    /// Merkle root and nonce.
    pub fn calculate_hash(
        index: u64,
        previous_hash: &str,
        timestamp: u64,
        merkle_root: &str,
        nonce: u64,
    ) -> (r: String)
        ensures
            r@ == block_hash_of(index, previous_hash@, timestamp, merkle_root@, nonce),
            r@.len() == 64,
    {
        let mut data = String::new();
        let s = u64_to_string(index);
        data.append(s.as_str());
        data.append(previous_hash);
        let s = u64_to_string(timestamp);
        data.append(s.as_str());
        data.append(merkle_root);
        let s = u64_to_string(nonce);
        data.append(s.as_str());
        proof {
            assert(data@ =~= block_hash_input(
                index,
                previous_hash@,
                timestamp,
                merkle_root@,
                nonce,
            ));
        }
        sha256_hex_str(data.as_str())
    }

    /// Sign the block's header and batch; the signature does not cover the
    /// nonce or hash, so signing precedes mining.
    pub fn sign(&mut self, keypair: &SigningKeypair)
        ensures
            final(self)@ == (BlockV {
                signature: Some(signature_of(keypair.key_bytes(), block_sign_msg(old(self)@))),
                ..old(self)@
            }),
            block_sig_verifies(final(self)@, public_key_of(keypair.key_bytes())),
    {
        let mut msg = String::new();
        let s = u64_to_string(self.index);
        msg.append(s.as_str());
        msg.append(self.previous_hash.as_str());
        let s = u64_to_string(self.timestamp);
        msg.append(s.as_str());
        append_enc_txs(&mut msg, &self.transactions);
        proof {
            assert(msg@ =~= block_sign_msg(self@));
        }
        let sig = keypair.sign_str(msg.as_str());
        let ghost sigv = sig@;
        self.signature = Some(sig);
        proof {
            assert(self@.signature =~= Some(sigv));
            assert(self@ =~= (BlockV {
                signature: Some(signature_of(keypair.key_bytes(), block_sign_msg(old(self)@))),
                ..old(self)@
            }));
            assert(block_sign_msg(self@) == block_sign_msg(old(self)@));
        }
    }

    /// Whether the stored signature verifies for the block's signing message
    /// under this 32-byte public key.
    pub fn verify_signature(&self, public_key: &Vec<u8>) -> (r: bool)
        ensures
            r == block_sig_verifies(self@, public_key@),
    {
        match &self.signature {
            None => false,
            Some(sig) => {
                let mut msg = String::new();
                let s = u64_to_string(self.index);
                msg.append(s.as_str());
                msg.append(self.previous_hash.as_str());
                let s = u64_to_string(self.timestamp);
                msg.append(s.as_str());
                append_enc_txs(&mut msg, &self.transactions);
                proof {
                    assert(msg@ =~= block_sign_msg(self@));
                    assert(self@.signature =~= Some(sig@));
                }
                crate::crypto::verify_signature_bytes(
                    public_key.as_slice(),
                    msg.as_str(),
                    sig.as_slice(),
                )
            },
        }
    }

    /// Search the nonce space for a hash with `difficulty` leading zeros and
    /// store the winning nonce and hash. The given difficulty governs the
    /// search target; callers scheduling difficulty from the previous
    /// block's age apply `adjust_difficulty` first.
    pub fn mine(&mut self, difficulty: u64)
        ensures
            ({
                let root = merkle_root_of(old(self)@.transactions);
                let h = block_hash_of(
                    old(self)@.index,
                    old(self)@.previous_hash,
                    old(self)@.timestamp,
                    root,
                    final(self)@.nonce,
                );
                &&& final(self)@ == (BlockV {
                    nonce: final(self)@.nonce,
                    hash: Some(h),
                    ..old(self)@
                })
                &&& leading_zeros_at_least(h, difficulty as nat) || (forall|n: u64|
                    !leading_zeros_at_least(
                        block_hash_of(
                            old(self)@.index,
                            old(self)@.previous_hash,
                            old(self)@.timestamp,
                            root,
                            n,
                        ),
                        difficulty as nat,
                    ))
            }),
    {
        let merkle_root = self.calculate_merkle_root();
        let found = parallel_find_nonce(
            self.index,
            self.previous_hash.as_str(),
            self.timestamp,
            merkle_root.as_str(),
            difficulty,
        );
        match found {
            Some(n) => {
                self.nonce = n;
            },
            None => {
                self.nonce = 0;
            },
        }
        let h = Block::calculate_hash(
            self.index,
            self.previous_hash.as_str(),
            self.timestamp,
            merkle_root.as_str(),
            self.nonce,
        );
        let ghost hv = h@;
        self.hash = Some(h);
        proof {
            assert(self@.hash =~= Some(hv));
            assert(self@ =~= (BlockV { nonce: self@.nonce, hash: Some(hv), ..old(self)@ }));
        }
    }

    /// Whether no block of the chain already carries this hash.
    pub fn is_unique_hash(blockchain: &[Block], hash: &str) -> (r: bool)
        ensures
            r == hash_is_unique(blockchain.deep_view(), hash@),
    {
        let mut i: usize = 0;
        while i < blockchain.len()
            invariant
                0 <= i <= blockchain@.len(),
                forall|j: int|
                    0 <= j < i ==> #[trigger] blockchain.deep_view()[j].hash != Some(hash@),
            decreases blockchain@.len() - i,
        {
            match &blockchain[i].hash {
                Some(existing) => {
                    let same = str_eq(existing.as_str(), hash);
                    proof {
                        assert(blockchain.deep_view()[i as int].hash =~= Some(existing@));
                    }
                    if same {
                        return false;
                    }
                },
                None => {
                    proof {
                        assert(blockchain.deep_view()[i as int].hash =~= Option::<Seq<char>>::None);
                    }
                },
            }
            i += 1;
        }
        true
    }
}

} // verus!
