use sha2::{Digest, Sha256};
use triad_ledger::atomic_swap::{SwapError, HTLC};
use triad_ledger::crypto::SigningKeypair;
use triad_ledger::external_adapter::{BlockchainAdapter, DefaultBlockchainAdapter};
use triad_ledger::mempool::Mempool;
use triad_ledger::smart_contract::{ContractManager, SmartContract};
use triad_ledger::transaction::{Transaction, TxOutput};
use triad_ledger::wallet::{generate_address, TokenWallet, WalletError};

struct CountingContract {
    calls: u64,
}

impl SmartContract for CountingContract {
    fn init(&mut self, _params: &str) -> Result<(), String> {
        self.calls = 0;
        Ok(())
    }

    fn execute(&mut self, input: &str) -> Result<String, String> {
        self.calls += 1;
        Ok(format!("ran {} on call {}", input, self.calls))
    }
}

fn sha256_hex_of(data: &str) -> String {
    let mut hasher = Sha256::new();
    hasher.update(data);
    format!("{:x}", hasher.finalize())
}

#[test]
fn test_htlc_usage() {
    let mut htlc = HTLC::new("Alice".into(), "Bob".into(), 100, "secret", 1_000_000);
    assert!(htlc.redeem("secret", 500_000).is_ok());
    assert!(htlc.redeem("secret", 500_000).is_err());
}

#[test]
fn htlc_hashlock_is_the_digest_of_the_secret() {
    let htlc = HTLC::new("Alice".into(), "Bob".into(), 100, "secret", 1_000_000);
    assert_eq!(htlc.hashlock, sha256_hex_of("secret"));
    assert!(!htlc.redeemed);
}

#[test]
fn htlc_redeem_errors_are_ordered() {
    let mut htlc = HTLC::new("Alice".into(), "Bob".into(), 100, "secret", 1_000_000);
    assert_eq!(
        htlc.redeem("secret", 1_000_001),
        Err(SwapError::TimelockExpired)
    );
    assert_eq!(
        htlc.redeem("wrong", 500_000),
        Err(SwapError::InvalidPreimage)
    );
    assert_eq!(htlc.redeem("secret", 500_000), Ok(()));
    assert_eq!(
        htlc.redeem("secret", 500_000),
        Err(SwapError::AlreadyRedeemed)
    );
}

#[test]
fn htlc_refund_waits_for_the_timelock() {
    let mut htlc = HTLC::new("Alice".into(), "Bob".into(), 100, "secret", 1_000_000);
    assert_eq!(htlc.refund(500_000), Err(SwapError::TimelockNotExpired));
    assert_eq!(htlc.refund(1_000_001), Ok(()));
    assert_eq!(htlc.refund(1_000_002), Ok(()));
}

#[test]
fn htlc_refund_rejects_a_redeemed_escrow() {
    let mut htlc = HTLC::new("Alice".into(), "Bob".into(), 100, "secret", 1_000_000);
    assert_eq!(htlc.redeem("secret", 500_000), Ok(()));
    assert_eq!(htlc.refund(1_000_001), Err(SwapError::AlreadyRedeemed));
}

#[test]
fn mempool_takes_all_in_order_and_clears() {
    let output = TxOutput {
        asset: "TRD".to_string(),
        recipient: "recipient".to_string(),
        amount: 5,
    };
    let tx1 = Transaction::new("alpha".to_string(), vec![output.clone()], 1);
    let tx2 = Transaction::new("beta".to_string(), vec![output], 2);
    let mut pool = Mempool::default();
    pool.add_transaction(tx1.clone());
    pool.add_transaction(tx2.clone());
    let drained = pool.take_all();
    assert_eq!(drained.len(), 2);
    assert_eq!(drained[0].id, tx1.id);
    assert_eq!(drained[1].id, tx2.id);
    assert!(pool.take_all().is_empty());
}

#[test]
fn wallet_starts_with_the_native_grant() {
    let wallet = TokenWallet::new("addr".to_string());
    assert_eq!(wallet.get_balance("TRD"), 1000);
    assert_eq!(wallet.get_balance("SOL"), 0);
    assert_eq!(wallet.address, "addr");
}

#[test]
fn wallet_add_and_subtract_move_one_asset() {
    let mut wallet = TokenWallet::new("addr".to_string());
    wallet.add_tokens("TRD", 50);
    assert_eq!(wallet.get_balance("TRD"), 1050);
    wallet.add_tokens("SOL", 7);
    assert_eq!(wallet.get_balance("SOL"), 7);
    assert_eq!(wallet.subtract_tokens("TRD", 1000), Ok(()));
    assert_eq!(wallet.get_balance("TRD"), 50);
    assert_eq!(
        wallet.subtract_tokens("TRD", 51),
        Err(WalletError::InsufficientFunds)
    );
    assert_eq!(wallet.get_balance("TRD"), 50);
    assert_eq!(
        wallet.subtract_tokens("BTC", 1),
        Err(WalletError::InsufficientFunds)
    );
}

#[test]
fn wallet_transfer_debits_and_credits() {
    let mut sender = TokenWallet::new("a".to_string());
    let mut recipient = TokenWallet::new("b".to_string());
    assert_eq!(sender.transfer_tokens(&mut recipient, "TRD", 300), Ok(()));
    assert_eq!(sender.get_balance("TRD"), 700);
    assert_eq!(recipient.get_balance("TRD"), 1300);
    assert_eq!(
        sender.transfer_tokens(&mut recipient, "TRD", 701),
        Err(WalletError::InsufficientFunds)
    );
    assert_eq!(sender.get_balance("TRD"), 700);
    assert_eq!(recipient.get_balance("TRD"), 1300);
}

#[test]
fn generate_address_digests_the_public_key() {
    let keypair = SigningKeypair::generate();
    let public_key = keypair.public_key();
    let address = generate_address(&public_key);
    let mut hasher = Sha256::new();
    hasher.update(&public_key);
    assert_eq!(address, format!("{:x}", hasher.finalize()));
}

#[test]
fn contract_manager_reports_missing_contracts() {
    let mut manager = ContractManager::new();
    let result = manager.execute_contract("0xNowhere", "input");
    assert_eq!(result, Err("Contract not found".to_string()));
}

#[test]
fn contract_manager_dispatches_by_address() {
    let mut manager = ContractManager::new();
    manager.deploy("0xCounter".to_string(), Box::new(CountingContract { calls: 0 }));
    assert_eq!(
        manager.execute_contract("0xCounter", "transfer"),
        Ok("ran transfer on call 1".to_string())
    );
    assert_eq!(
        manager.execute_contract("0xCounter", "transfer"),
        Ok("ran transfer on call 2".to_string())
    );
    assert!(manager.execute_contract("0xOther", "transfer").is_err());
}

#[test]
fn default_adapter_simulates_every_request() {
    let adapter = DefaultBlockchainAdapter;
    assert_eq!(adapter.lock_asset("SOL", 10, "alice"), Ok(()));
    assert_eq!(adapter.release_asset("SOL", 10, "bob"), Ok(()));
    assert_eq!(
        adapter.call_smart_contract("0xContractAddress", "transfer", "100"),
        Ok("Simulated contract call succeeded".to_string())
    );
}
