use near_faucet::chain::{Method, RemoteAction};
use near_faucet::env::{AccessError, CallEnv, CallError, ValidationError};
use near_faucet::ft::{Contract, LedgerOp};
use near_faucet::metadata::{TokenMetadata, FT_METADATA_SPEC};

const TOTAL_SUPPLY: u128 = 1_000_000_000_000_000;

fn env_from(predecessor: &str) -> CallEnv {
    CallEnv {
        current_account_id: "contract.testnet".to_string(),
        predecessor_account_id: predecessor.to_string(),
        signer_account_id: predecessor.to_string(),
        block_timestamp_ms: 0,
        account_balance: 0,
    }
}

fn test_metadata() -> TokenMetadata {
    TokenMetadata {
        spec: FT_METADATA_SPEC.to_string(),
        name: "Test Token".to_string(),
        symbol: "TEST".to_string(),
        icon: None,
        reference: None,
        reference_hash: None,
        decimals: 24,
    }
}

fn minted_to(ops: &[LedgerOp], account: &str) -> u128 {
    let mut registered = false;
    let mut total = 0;
    for op in ops {
        match op {
            LedgerOp::RegisterAccount { account_id } if account_id == account => registered = true,
            LedgerOp::Mint { account_id, amount, .. } if account_id == account => {
                assert!(registered);
                total += amount;
            }
            _ => {}
        }
    }
    total
}

#[test]
fn new() {
    let env = env_from("bob");
    let (contract, ops) = Contract::new(&env, "bob".to_string(), TOTAL_SUPPLY, test_metadata(), false).unwrap();
    // the whole supply is minted to the owner
    assert_eq!(minted_to(&ops, "bob"), TOTAL_SUPPLY);
    assert_eq!(ops.len(), 2);
    assert_eq!(contract.ft_metadata().decimals, 24);
    assert_eq!(contract.ft_metadata().name, "Test Token");
    assert!(contract.is_mod(&"bob".to_string()));
    assert_eq!(contract.get_registered_accounts(), 1);
}

#[test]
fn new_refuses_bad_starts() {
    let env = env_from("bob");
    assert!(matches!(
        Contract::new(&env, "bob".to_string(), TOTAL_SUPPLY, test_metadata(), true),
        Err(CallError::Validation(ValidationError::AlreadyInitialized))
    ));
    let mut wrong_spec = test_metadata();
    wrong_spec.spec = "ft-2.0.0".to_string();
    assert!(matches!(
        Contract::new(&env, "bob".to_string(), TOTAL_SUPPLY, wrong_spec, false),
        Err(CallError::Validation(ValidationError::InvalidMetadata))
    ));
    let mut short_hash = test_metadata();
    short_hash.reference = Some("https://example.org".to_string());
    short_hash.reference_hash = Some(vec![0u8; 31]);
    assert!(matches!(
        Contract::new(&env, "bob".to_string(), TOTAL_SUPPLY, short_hash, false),
        Err(CallError::Validation(ValidationError::InvalidMetadata))
    ));
    let mut full = test_metadata();
    full.reference = Some("https://example.org".to_string());
    full.reference_hash = Some(vec![7u8; 32]);
    assert!(Contract::new(&env, "bob".to_string(), TOTAL_SUPPLY, full, false).is_ok());
}

#[test]
fn add_mod() {
    let env = env_from("charlie");
    let (mut contract, _) = Contract::new(&env, "bob".to_string(), TOTAL_SUPPLY, test_metadata(), false).unwrap();
    contract.add_mod(&env, "danny".to_string()).unwrap();
    assert!(contract.is_mod(&"danny".to_string()));
}

#[test]
fn add_mod_refuses_non_mods() {
    let (mut contract, _) =
        Contract::new(&env_from("charlie"), "bob".to_string(), TOTAL_SUPPLY, test_metadata(), false).unwrap();
    assert_eq!(
        contract.add_mod(&env_from("eugene"), "eugene".to_string()),
        Err(CallError::Access(AccessError::NotPrivileged))
    );
    assert!(!contract.is_mod(&"eugene".to_string()));
}

#[test]
fn list_on_faucet_funds_and_lists() {
    let env = env_from("charlie");
    let (mut contract, _) = Contract::new(&env, "bob".to_string(), TOTAL_SUPPLY, test_metadata(), false).unwrap();
    let (ops, chain) = contract.list_on_faucet(&env, "faucet.testnet".to_string(), 20, 100, false).unwrap();
    assert_eq!(minted_to(&ops, "faucet.testnet"), 100);
    assert_eq!(contract.get_registered_accounts(), 2);
    assert_eq!(chain.steps.len(), 1);
    assert_eq!(chain.steps[0].receiver_id, "faucet.testnet");
    match &chain.steps[0].actions[0] {
        RemoteAction::FunctionCall {
            method: Method::FtListFromFactory { ft_request_allowance, ft_initial_balance, ft_metadata },
            gas_tgas,
            ..
        } => {
            assert_eq!(*ft_request_allowance, 20);
            assert_eq!(*ft_initial_balance, 100);
            assert_eq!(ft_metadata.name, "Test Token");
            assert_eq!(*gas_tgas, 10);
        }
        other => panic!("unexpected action {:?}", other),
    }
}

#[test]
fn list_on_faucet_refusals() {
    let env = env_from("charlie");
    let (mut contract, _) = Contract::new(&env, "bob".to_string(), TOTAL_SUPPLY, test_metadata(), false).unwrap();
    assert!(matches!(
        contract.list_on_faucet(&env_from("eve"), "faucet.testnet".to_string(), 20, 100, false),
        Err(CallError::Access(AccessError::NotPrivileged))
    ));
    assert!(matches!(
        contract.list_on_faucet(&env, "faucet.testnet".to_string(), 100, 100, false),
        Err(CallError::Validation(ValidationError::AllowanceNotBelowBalance))
    ));
    assert!(matches!(
        contract.list_on_faucet(&env, "faucet.testnet".to_string(), 20, 100, true),
        Err(CallError::Validation(ValidationError::AlreadyListed))
    ));
    assert_eq!(contract.get_registered_accounts(), 1);
}

#[test]
fn remove_from_faucet_and_delete() {
    let env = env_from("charlie");
    let (contract, _) = Contract::new(&env, "bob".to_string(), TOTAL_SUPPLY, test_metadata(), false).unwrap();
    assert!(matches!(
        contract.remove_from_faucet(&env, "faucet.testnet".to_string(), false),
        Err(CallError::Validation(ValidationError::NotConfirmed))
    ));
    let chain = contract.remove_from_faucet(&env, "faucet.testnet".to_string(), true).unwrap();
    assert!(matches!(
        chain.steps[0].actions[0],
        RemoteAction::FunctionCall { method: Method::FtRemoveToken { confirm: true }, .. }
    ));
    let chain = contract.delete_contract_account(&env).unwrap();
    assert_eq!(chain.steps[0].receiver_id, "contract.testnet");
    assert!(matches!(
        &chain.steps[0].actions[0],
        RemoteAction::DeleteAccount { beneficiary_id } if beneficiary_id == "charlie"
    ));
    assert!(matches!(
        contract.delete_contract_account(&env_from("eve")),
        Err(CallError::Access(AccessError::NotPrivileged))
    ));
}
