use sha2::{Digest, Sha256};

use triad_ledger::block::{adjust_difficulty, Block};
use triad_ledger::chain::{ChainError, ChainStore};
use triad_ledger::consensus::{
    choose_consensus, get_consensus, transaction_type_to_string, validate_transaction, Consensus,
    ConsensusType, DPoS, HybridConsensus, PoS, PoSpace, PoW, Tendermint, TransactionType,
};
use triad_ledger::consensus_plugin::PluginManager;
use triad_ledger::crypto::SigningKeypair;
use triad_ledger::transaction::{Transaction, TxOutput};

fn sha256_hex_of(data: &str) -> String {
    let mut hasher = Sha256::new();
    hasher.update(data);
    format!("{:x}", hasher.finalize())
}

fn bare_block(index: u64, hash: Option<&str>) -> Block {
    Block {
        index,
        previous_hash: "0".to_string(),
        timestamp: 0,
        transactions: vec![],
        consensus_algorithm: "Hybrid".to_string(),
        signature: None,
        hash: hash.map(|h| h.to_string()),
        nonce: 0,
        miner_reward: 50,
        transaction_fee: 5,
    }
}

#[test]
fn test_hybrid_consensus_usage() {
    let block = Block {
        index: 60,
        previous_hash: "0".into(),
        timestamp: 0,
        transactions: vec![],
        consensus_algorithm: "Hybrid".into(),
        signature: None,
        hash: Some("0000dummyhash".into()),
        nonce: 0,
        miner_reward: 50,
        transaction_fee: 5,
    };
    let hybrid = HybridConsensus::new(vec![
        Box::new(PoW),
        Box::new(PoS),
        Box::new(DPoS),
        Box::new(Tendermint),
        Box::new(PoSpace),
    ]);
    assert!(hybrid.validate(&block));
}

#[test]
fn block_new_sets_rewards_and_leaves_hash_unset() {
    let block = Block::new(1, "0".to_string(), 7, vec![], "PoW".to_string());
    assert_eq!(block.miner_reward, 50);
    assert_eq!(block.transaction_fee, 5);
    assert!(block.hash.is_none());
    assert!(block.signature.is_none());
    assert_eq!(block.nonce, 0);
}

#[test]
fn calculate_hash_digests_the_concatenated_header() {
    let got = Block::calculate_hash(1, "0", 5, "m", 7);
    assert_eq!(got, sha256_hex_of("105m7"));
}

#[test]
fn genesis_block_mines_signs_and_verifies() {
    let keypair = SigningKeypair::generate();
    let output = TxOutput {
        asset: "SOL".to_string(),
        recipient: "R".to_string(),
        amount: 10,
    };
    let tx = Transaction::new("sender".to_string(), vec![output], 1);
    let mut block = Block::new(1, "0".to_string(), 1675303065, vec![tx], "Hybrid".to_string());
    block.sign(&keypair);
    assert!(block.verify_signature(&keypair.public_key()));
    block.mine(1);
    let hash = block.hash.clone().expect("mining stores a hash");
    assert!(hash.starts_with("0"));
    let recomputed = Block::calculate_hash(
        block.index,
        &block.previous_hash,
        block.timestamp,
        &block.calculate_merkle_root(),
        block.nonce,
    );
    assert_eq!(hash, recomputed);
}

#[test]
fn pow_needs_four_leading_zeros() {
    let keypair = SigningKeypair::generate();
    let mut block = Block::new(1, "0".to_string(), 1675303065, vec![], "PoW".to_string());
    block.sign(&keypair);
    block.mine(4);
    let pow = PoW;
    assert!(pow.validate(&block));
    let unmined = bare_block(1, Some("1234"));
    assert!(!pow.validate(&unmined));
}

#[test]
fn block_signature_fails_under_other_keypair() {
    let keypair = SigningKeypair::generate();
    let other = SigningKeypair::generate();
    let mut block = Block::new(2, "0".to_string(), 9, vec![], "PoS".to_string());
    assert!(!block.verify_signature(&keypair.public_key()));
    block.sign(&keypair);
    assert!(block.verify_signature(&keypair.public_key()));
    assert!(!block.verify_signature(&other.public_key()));
}

#[test]
fn placeholder_strategies_divide_the_index() {
    let pos = PoS;
    assert!(pos.validate(&bare_block(6, None)));
    assert!(!pos.validate(&bare_block(7, None)));
    let dpos = DPoS;
    assert!(dpos.validate(&bare_block(6, None)));
    assert!(!dpos.validate(&bare_block(7, None)));
    let tendermint = Tendermint;
    assert!(tendermint.validate(&bare_block(8, None)));
    assert!(!tendermint.validate(&bare_block(7, None)));
    let pospace = PoSpace;
    assert!(pospace.validate(&bare_block(10, None)));
    assert!(!pospace.validate(&bare_block(7, None)));
}

#[test]
fn hybrid_of_pos_and_dpos_follows_both() {
    let hybrid = HybridConsensus::new(vec![Box::new(PoS), Box::new(DPoS)]);
    assert!(hybrid.validate(&bare_block(6, None)));
    assert!(!hybrid.validate(&bare_block(7, None)));
}

#[test]
fn get_consensus_returns_the_named_strategy() {
    let pos = get_consensus(ConsensusType::PoS);
    assert!(pos.validate(&bare_block(6, None)));
    assert!(!pos.validate(&bare_block(7, None)));
    let pow = get_consensus(ConsensusType::PoW);
    assert!(!pow.validate(&bare_block(6, None)));
}

#[test]
fn a_consensus_name_validates_like_its_strategy() {
    assert!(ConsensusType::PoS.validate(&bare_block(6, None)));
    assert!(!ConsensusType::PoS.validate(&bare_block(7, None)));
    assert!(ConsensusType::PoSpace.validate(&bare_block(10, None)));
    assert!(!ConsensusType::Tendermint.validate(&bare_block(10, None)));
}

#[test]
fn choose_consensus_rotates_through_the_strategies() {
    assert_eq!(choose_consensus(0), "PoW");
    assert_eq!(choose_consensus(1), "PoS");
    assert_eq!(choose_consensus(2), "DPoS");
    assert_eq!(choose_consensus(3), "Tendermint");
    assert_eq!(choose_consensus(4), "PoSpace");
    assert_eq!(choose_consensus(12), "DPoS");
}

#[test]
fn plugin_manager_requires_every_plugin() {
    let mut manager = PluginManager::new();
    manager.register_plugin(Box::new(PoS));
    manager.register_plugin(Box::new(DPoS));
    assert!(manager.validate_block(&bare_block(6, None)));
    assert!(!manager.validate_block(&bare_block(7, None)));
    let empty = PluginManager::new();
    assert!(empty.validate_block(&bare_block(7, None)));
}

#[test]
fn validate_transaction_routes_by_workload() {
    assert!(validate_transaction(TransactionType::Small, &bare_block(6, None)));
    assert!(!validate_transaction(TransactionType::Small, &bare_block(7, None)));
    assert!(validate_transaction(TransactionType::Delegation, &bare_block(9, None)));
    assert!(!validate_transaction(TransactionType::Large, &bare_block(9, None)));
    assert_eq!(transaction_type_to_string(TransactionType::Large), "Large");
    assert_eq!(transaction_type_to_string(TransactionType::Storage), "Storage");
}

#[test]
fn chain_rejects_a_duplicate_hash() {
    let mut chain = ChainStore::new();
    assert_eq!(chain.append(bare_block(1, Some("aaaa"))), Ok(()));
    assert_eq!(
        chain.append(bare_block(2, Some("aaaa"))),
        Err(ChainError::DuplicateBlockHash)
    );
    assert_eq!(chain.append(bare_block(2, Some("bbbb"))), Ok(()));
    assert_eq!(chain.len(), 2);
}

#[test]
fn is_unique_hash_scans_the_chain() {
    let blocks = vec![bare_block(1, Some("aaaa")), bare_block(2, Some("bbbb"))];
    assert!(!Block::is_unique_hash(&blocks, "aaaa"));
    assert!(Block::is_unique_hash(&blocks, "cccc"));
}

#[test]
fn chain_status_reports_count_and_last_hash() {
    let mut chain = ChainStore::new();
    assert_eq!(chain.next_previous_hash(), "0");
    let (count, last) = chain.status();
    assert_eq!(count, 0);
    assert_eq!(last, "");
    chain.append(bare_block(1, Some("aaaa"))).unwrap();
    assert_eq!(chain.next_previous_hash(), "aaaa");
    let (count, last) = chain.status();
    assert_eq!(count, 1);
    assert_eq!(last, "aaaa");
    assert_eq!(chain.blocks().len(), 1);
}

#[test]
fn adjust_difficulty_follows_block_age() {
    assert_eq!(adjust_difficulty(4, 30), 5);
    assert_eq!(adjust_difficulty(4, 60), 4);
    assert_eq!(adjust_difficulty(4, 120), 4);
    assert_eq!(adjust_difficulty(4, 121), 3);
    assert_eq!(adjust_difficulty(0, 500), 0);
    assert_eq!(adjust_difficulty(u64::MAX, 1), u64::MAX);
}
