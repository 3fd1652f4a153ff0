use near_faucet::chain::{ChainRun, Continuation, Method, RemoteAction};
use near_faucet::env::{AccessError, CallEnv, CallError, RemoteStepFailure, ValidationError};
use near_faucet::factory::{Contract, INITIAL_FUNDS};
use near_faucet::metadata::{TokenMetadata, FT_METADATA_SPEC};

fn env_of(current: &str, predecessor: &str) -> CallEnv {
    CallEnv {
        current_account_id: current.to_string(),
        predecessor_account_id: predecessor.to_string(),
        signer_account_id: predecessor.to_string(),
        block_timestamp_ms: 0,
        account_balance: 0,
    }
}

fn example_metadata() -> TokenMetadata {
    TokenMetadata {
        spec: FT_METADATA_SPEC.to_string(),
        name: "Example Token Name".to_string(),
        symbol: "EXLT".to_string(),
        icon: None,
        reference: None,
        reference_hash: None,
        decimals: 8,
    }
}

#[test]
fn test_add_contract() {
    let env = env_of("contract.testnet", "contract.testnet");
    let mut contract = Contract::default();
    contract.add_contract(&env, "alice".to_string()).unwrap();
    assert_eq!(contract.num_contracts(), 1);
}

#[test]
fn test_remove_contract() {
    let env = env_of("contract.testnet", "contract.testnet");
    let mut contract = Contract::default();
    contract.add_contract(&env, "alice".to_string()).unwrap();
    contract.remove_contract(&env, "alice".to_string()).unwrap();
    assert_eq!(contract.num_contracts(), 0);
}

#[test]
fn add_contract_refuses_other_callers() {
    let env = env_of("contract.testnet", "alice");
    let mut contract = Contract::default();
    assert_eq!(
        contract.add_contract(&env, "alice".to_string()),
        Err(CallError::Access(AccessError::NotSelf))
    );
    assert_eq!(contract.num_contracts(), 0);
}

#[test]
fn remove_contract_refuses_other_callers() {
    let owner = env_of("contract.testnet", "contract.testnet");
    let env = env_of("contract.testnet", "alice");
    let mut contract = Contract::default();
    contract.add_contract(&owner, "alice".to_string()).unwrap();
    assert_eq!(
        contract.remove_contract(&env, "alice".to_string()),
        Err(CallError::Access(AccessError::NotSelf))
    );
    assert_eq!(contract.num_contracts(), 1);
}

#[test]
fn adding_a_contract_twice_keeps_one_record() {
    let env = env_of("contract.testnet", "contract.testnet");
    let mut contract = Contract::default();
    contract.add_contract(&env, "token.f".to_string()).unwrap();
    contract.add_contract(&env, "token.f".to_string()).unwrap();
    assert_eq!(contract.num_contracts(), 1);
    contract.remove_contract(&env, "token.f".to_string()).unwrap();
    contract.remove_contract(&env, "token.f".to_string()).unwrap();
    assert_eq!(contract.num_contracts(), 0);
    assert!(!contract.is_deployed(&"token.f".to_string()));
}

#[test]
fn create_contract_builds_the_provision_chain() {
    let env = env_of("f", "f");
    let mut contract = Contract::default();
    let chain = contract
        .create_contract(&env, "token".to_string(), "owner".to_string(), 100_000_000_000, example_metadata())
        .unwrap();
    assert_eq!(chain.steps.len(), 2);
    for step in &chain.steps {
        assert_eq!(step.receiver_id, "token.f");
    }
    let setup = &chain.steps[0].actions;
    assert_eq!(setup.len(), 4);
    assert!(matches!(setup[0], RemoteAction::CreateAccount));
    assert!(matches!(setup[1], RemoteAction::AddSignerFullAccessKey));
    assert!(matches!(setup[2], RemoteAction::Transfer { amount } if amount == INITIAL_FUNDS));
    assert!(matches!(setup[3], RemoteAction::DeployTokenCode));
    assert_eq!(chain.steps[1].actions.len(), 1);
    match &chain.steps[1].actions[0] {
        RemoteAction::FunctionCall { method: Method::FtNew { owner_id, total_supply, metadata }, .. } => {
            assert_eq!(owner_id, "owner");
            assert_eq!(*total_supply, 100_000_000_000);
            assert_eq!(metadata.name, "Example Token Name");
        }
        other => panic!("unexpected action {:?}", other),
    }
    match &chain.continuation {
        Some(Continuation::SaveContract { ft_contract_id }) => assert_eq!(ft_contract_id, "token.f"),
        other => panic!("unexpected continuation {:?}", other),
    }
    assert_eq!(contract.num_contracts(), 0);
}

#[test]
fn create_contract_refuses_other_callers() {
    let env = env_of("f", "alice");
    let mut contract = Contract::default();
    let r = contract.create_contract(&env, "token".to_string(), "owner".to_string(), 1, example_metadata());
    assert!(matches!(r, Err(CallError::Access(AccessError::NotSelf))));
}

#[test]
fn create_contract_refuses_a_malformed_name() {
    let env = env_of("f", "f");
    let mut contract = Contract::default();
    let r = contract.create_contract(&env, "Token".to_string(), "owner".to_string(), 1, example_metadata());
    assert!(matches!(r, Err(CallError::Validation(ValidationError::InvalidAccountId))));
    let r = contract.create_contract(&env, "to..ken".to_string(), "owner".to_string(), 1, example_metadata());
    assert!(matches!(r, Err(CallError::Validation(ValidationError::InvalidAccountId))));
}

#[test]
fn provision_records_the_service_when_every_step_succeeds() {
    let env = env_of("f", "f");
    let mut contract = Contract::default();
    let chain = contract
        .create_contract(&env, "token".to_string(), "owner".to_string(), 100_000_000_000, example_metadata())
        .unwrap();
    let mut run = ChainRun::start(chain);
    while run.next_step().is_some() {
        run.report(true);
    }
    assert_eq!(run.outcome(), Some(true));
    let id = match run.continuation() {
        Some(Continuation::SaveContract { ft_contract_id }) => ft_contract_id.clone(),
        other => panic!("unexpected continuation {:?}", other),
    };
    contract.save_contract_callback(&env, id, Ok(())).unwrap();
    assert!(contract.is_deployed(&"token.f".to_string()));
    assert_eq!(contract.num_contracts(), 1);
}

#[test]
fn provision_records_nothing_when_initialization_fails() {
    let env = env_of("f", "f");
    let mut contract = Contract::default();
    let chain = contract
        .create_contract(&env, "token".to_string(), "owner".to_string(), 100_000_000_000, example_metadata())
        .unwrap();
    let mut run = ChainRun::start(chain);
    let mut dispatched = 0;
    while let Some(step) = run.next_step() {
        dispatched += 1;
        let is_init = matches!(step.actions[0], RemoteAction::FunctionCall { method: Method::FtNew { .. }, .. });
        run.report(!is_init);
    }
    assert_eq!(dispatched, 2);
    assert_eq!(run.outcome(), Some(false));
    contract.save_contract_callback(&env, "token.f".to_string(), Err(RemoteStepFailure)).unwrap();
    assert!(!contract.is_deployed(&"token.f".to_string()));
    assert_eq!(contract.num_contracts(), 0);
}

#[test]
fn decommission_forgets_the_service_only_on_success() {
    let env = env_of("f", "f");
    let mut contract = Contract::default();
    contract.add_contract(&env, "token.f".to_string()).unwrap();
    let chain = contract.delete_contract_account(&env, "token.f".to_string()).unwrap();
    assert_eq!(chain.steps.len(), 1);
    assert_eq!(chain.steps[0].receiver_id, "token.f");
    assert!(matches!(
        chain.steps[0].actions[0],
        RemoteAction::FunctionCall { method: Method::FtDeleteAccount, deposit: 0, gas_tgas: 5 }
    ));
    contract.remove_contract_callback(&env, "token.f".to_string(), Err(RemoteStepFailure)).unwrap();
    assert_eq!(contract.num_contracts(), 1);
    contract.remove_contract_callback(&env, "token.f".to_string(), Ok(())).unwrap();
    assert_eq!(contract.num_contracts(), 0);
}

#[test]
fn callbacks_refuse_other_callers() {
    let env = env_of("f", "mallory");
    let mut contract = Contract::default();
    assert_eq!(
        contract.save_contract_callback(&env, "token.f".to_string(), Ok(())),
        Err(CallError::Access(AccessError::NotSelf))
    );
    assert_eq!(
        contract.remove_contract_callback(&env, "token.f".to_string(), Ok(())),
        Err(CallError::Access(AccessError::NotSelf))
    );
    assert!(contract.delete_contract_account(&env, "token.f".to_string()).is_err());
    assert_eq!(contract.num_contracts(), 0);
}
