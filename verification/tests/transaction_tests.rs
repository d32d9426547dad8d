use sha2::{Digest, Sha256};
use triad_ledger::crypto::SigningKeypair;
use triad_ledger::transaction::{calculate_merkle_root, Transaction, TxError, TxOutput, TxType};

fn sha256_hex_of(data: &str) -> String {
    let mut hasher = Sha256::new();
    hasher.update(data);
    format!("{:x}", hasher.finalize())
}

fn sample_output() -> TxOutput {
    TxOutput {
        asset: "TRD".to_string(),
        recipient: "recipient".to_string(),
        amount: 50,
    }
}

#[test]
fn test_transaction_id() {
    let tx_output = sample_output();
    let tx = Transaction::new("sender".to_string(), vec![tx_output], 1);
    assert!(!tx.id.is_empty(), "Transaction ID should be computed");
}

#[test]
fn test_transaction_signature() {
    let keypair = SigningKeypair::generate();
    let tx_output = sample_output();
    let mut tx = Transaction::new("sender".to_string(), vec![tx_output], 1);
    tx.sign(&keypair);
    assert!(tx.verify(&keypair.public_key()), "Signature should be valid");
}

#[test]
fn transaction_id_is_reproducible() {
    let tx = Transaction::new("sender".to_string(), vec![sample_output()], 1);
    assert_eq!(tx.calculate_id(), tx.id);
    assert_eq!(tx.id.len(), 64);
}

#[test]
fn signature_fails_under_other_keypair() {
    let keypair = SigningKeypair::generate();
    let other = SigningKeypair::generate();
    let mut tx = Transaction::new("sender".to_string(), vec![sample_output()], 1);
    tx.sign(&keypair);
    assert!(tx.verify(&keypair.public_key()));
    assert!(!tx.verify(&other.public_key()));
}

#[test]
fn unsigned_transaction_does_not_verify() {
    let keypair = SigningKeypair::generate();
    let tx = Transaction::new("sender".to_string(), vec![sample_output()], 1);
    assert!(!tx.verify(&keypair.public_key()));
}

#[test]
fn validate_accepts_a_plain_transfer() {
    let tx = Transaction::new("sender".to_string(), vec![sample_output()], 1);
    assert_eq!(tx.validate(), Ok(()));
}

#[test]
fn validate_rejects_zero_value() {
    let tx = Transaction::new("sender".to_string(), vec![], 0);
    assert_eq!(tx.validate(), Err(TxError::InvalidTransaction));
}

#[test]
fn validate_rejects_unrepresentable_totals() {
    let big = TxOutput {
        asset: "TRD".to_string(),
        recipient: "recipient".to_string(),
        amount: u64::MAX,
    };
    let tx = Transaction::new("sender".to_string(), vec![big], 1);
    assert_eq!(tx.validate(), Err(TxError::InvalidTransaction));
}

#[test]
fn validate_rejects_contract_call_without_gas_fields() {
    let mut tx = Transaction::new("sender".to_string(), vec![sample_output()], 1);
    tx.tx_type = TxType::ContractCall;
    assert_eq!(tx.validate(), Err(TxError::MissingContractFields));
    tx.gas_limit = Some(21000);
    tx.gas_price = Some(5);
    tx.payload = Some("0xContractAddress:transfer:100".to_string());
    assert_eq!(tx.validate(), Ok(()));
}

#[test]
fn cross_chain_transaction_names_both_networks() {
    let tx = Transaction::new_cross_chain(
        "sender".to_string(),
        vec![sample_output()],
        1,
        "Solana".to_string(),
        "Ethereum".to_string(),
    );
    assert_eq!(tx.source_network.as_deref(), Some("Solana"));
    assert_eq!(tx.target_network.as_deref(), Some("Ethereum"));
    assert!(!tx.id.is_empty());
}

#[test]
fn merkle_root_of_empty_batch_is_digest_of_empty_string() {
    let root = calculate_merkle_root(&[]);
    assert_eq!(
        root,
        "e3b0c44298fc1c149afbf4c8996fb92427ae41e4649b934ca495991b7852b855"
    );
    assert_eq!(root, sha256_hex_of(""));
}

#[test]
fn merkle_root_of_single_transaction_is_its_id() {
    let tx = Transaction::new("sender".to_string(), vec![sample_output()], 1);
    let root = calculate_merkle_root(std::slice::from_ref(&tx));
    assert_eq!(root, tx.id);
}

#[test]
fn merkle_root_pairs_adjacent_identifiers() {
    let tx1 = Transaction::new("alpha".to_string(), vec![sample_output()], 1);
    let tx2 = Transaction::new("beta".to_string(), vec![sample_output()], 2);
    let root = calculate_merkle_root(&[tx1.clone(), tx2.clone()]);
    let expected = sha256_hex_of(&format!("{}{}", tx1.id, tx2.id));
    assert_eq!(root, expected);
}

#[test]
fn merkle_root_duplicates_the_odd_leaf() {
    let tx1 = Transaction::new("alpha".to_string(), vec![sample_output()], 1);
    let tx2 = Transaction::new("beta".to_string(), vec![sample_output()], 2);
    let tx3 = Transaction::new("gamma".to_string(), vec![sample_output()], 3);
    let root = calculate_merkle_root(&[tx1.clone(), tx2.clone(), tx3.clone()]);
    let left = sha256_hex_of(&format!("{}{}", tx1.id, tx2.id));
    let right = sha256_hex_of(&format!("{}{}", tx3.id, tx3.id));
    let expected = sha256_hex_of(&format!("{}{}", left, right));
    assert_eq!(root, expected);
}

#[test]
fn merkle_root_is_deterministic_and_content_sensitive() {
    let tx1 = Transaction::new("alpha".to_string(), vec![sample_output()], 1);
    let tx2 = Transaction::new("beta".to_string(), vec![sample_output()], 2);
    let batch = [tx1.clone(), tx2.clone()];
    assert_eq!(calculate_merkle_root(&batch), calculate_merkle_root(&batch));
    let swapped = [tx2, tx1];
    assert_ne!(calculate_merkle_root(&batch), calculate_merkle_root(&swapped));
}
