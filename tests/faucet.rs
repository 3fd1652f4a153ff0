use near_faucet::chain::{Continuation, Method, RemoteAction};
use near_faucet::env::{AccessError, CallEnv, CallError, RateLimitError, RemoteStepFailure, ValidationError};
use near_faucet::faucet::tokens::TransferMessage;
use near_faucet::faucet::{Contract, MIN_BALANCE_THRESHOLD, REQUEST_ALLOWANCE, REQUEST_GAP_MS};
use near_faucet::metadata::{TokenMetadata, FT_METADATA_SPEC};

const FAUCET: &str = "contract.testnet";
const HOUR_MS: u64 = 3_600_000;

fn env_at(predecessor: &str, now: u64) -> CallEnv {
    CallEnv {
        current_account_id: FAUCET.to_string(),
        predecessor_account_id: predecessor.to_string(),
        signer_account_id: predecessor.to_string(),
        block_timestamp_ms: now,
        account_balance: 20_000_000_000_000_000_000_000_000_000,
    }
}

fn metadata(name: &str) -> TokenMetadata {
    TokenMetadata {
        spec: FT_METADATA_SPEC.to_string(),
        name: name.to_string(),
        symbol: "TKN".to_string(),
        icon: None,
        reference: None,
        reference_hash: None,
        decimals: 24,
    }
}

/// A faucet with the token "token.testnet" listed through a transfer message.
fn faucet_with_token(allowance: u128, balance: u128) -> Contract {
    let mut contract = Contract::default();
    let token = env_at("token.testnet", 0);
    let (refund, chain) = contract
        .ft_on_transfer(&token, "owner.testnet".to_string(), balance, TransferMessage::List { ft_request_allowance: allowance })
        .unwrap();
    assert_eq!(refund, 0);
    let chain = chain.unwrap();
    assert_eq!(chain.steps[0].receiver_id, "token.testnet");
    let (id, a, b) = match chain.continuation {
        Some(Continuation::ListToken { ft_contract_id, ft_request_allowance, ft_available_balance }) => {
            (ft_contract_id, ft_request_allowance, ft_available_balance)
        }
        other => panic!("unexpected continuation {:?}", other),
    };
    contract.ft_list_token(&env_at(FAUCET, 0), Ok(metadata("Token")), id, a, b).unwrap();
    contract
}

fn balance_of(contract: &Contract, token: &str) -> u128 {
    contract.ft_get_token_config(&token.to_string()).unwrap().ft_available_balance
}

#[test]
fn test_add_to_blacklist() {
    let mut contract = Contract::default();
    let env = env_at(FAUCET, 0);
    contract.add_to_blacklist(&env, "bob".to_string()).unwrap();
    assert!(contract.is_blacklisted(&"bob".to_string()));
}

#[test]
fn test_batch_add_to_blacklist() {
    let mut contract = Contract::default();
    let env = env_at(FAUCET, 0);
    contract
        .batch_add_to_blacklist(&env, vec!["alice".to_string(), "bob".to_string(), "charlie".to_string()])
        .unwrap();
    assert!(contract.is_blacklisted(&"alice".to_string()));
    assert!(contract.is_blacklisted(&"bob".to_string()));
    assert!(contract.is_blacklisted(&"charlie".to_string()));
}

#[test]
fn test_remove_from_blacklist() {
    let mut contract = Contract::default();
    let env = env_at(FAUCET, 0);
    contract.remove_from_blacklist(&env, "bob".to_string()).unwrap();
    assert!(contract.is_blacklisted(&"alice".to_string()) == false);
}

#[test]
fn blacklist_changes_refuse_other_callers() {
    let mut contract = Contract::default();
    let env = env_at("alice", 0);
    assert_eq!(
        contract.add_to_blacklist(&env, "bob".to_string()),
        Err(CallError::Access(AccessError::NotSelf))
    );
    assert_eq!(
        contract.remove_from_blacklist(&env, "bob".to_string()),
        Err(CallError::Access(AccessError::NotSelf))
    );
    assert!(!contract.is_blacklisted(&"bob".to_string()));
}

#[test]
fn request_near_sends_and_counts() {
    let mut contract = Contract::default();
    let amount = 5_000_000_000_000_000_000_000_000;
    let chains = contract.request_near(&env_at("alice", 1_000), "alice.testnet".to_string(), amount).unwrap();
    assert_eq!(chains.len(), 1);
    assert_eq!(chains[0].steps[0].receiver_id, "alice.testnet");
    assert!(matches!(chains[0].steps[0].actions[0], RemoteAction::Transfer { amount: a } if a == amount));
    assert_eq!(contract.get_stats().successful_requests, 1);
    assert_eq!(contract.last_request_ms(&"alice.testnet".to_string()), Some(1_000));
}

#[test]
fn request_near_asks_the_vault_when_low() {
    let mut contract = Contract::default();
    let mut env = env_at("alice", 0);
    env.account_balance = MIN_BALANCE_THRESHOLD - 1;
    let chains = contract.request_near(&env, "alice.testnet".to_string(), 1).unwrap();
    assert_eq!(chains.len(), 2);
    assert_eq!(chains[1].steps[0].receiver_id, "vault.nonofficial.testnet");
    assert!(matches!(
        chains[1].steps[0].actions[0],
        RemoteAction::FunctionCall { method: Method::RequestFunds, deposit: 0, gas_tgas: 5 }
    ));
}

#[test]
fn request_near_refuses_each_bad_request() {
    let mut contract = Contract::default();
    let admin = env_at(FAUCET, 0);
    contract.add_to_blacklist(&admin, "eve.testnet".to_string()).unwrap();
    let env = env_at("alice", 0);
    assert_eq!(
        contract.request_near(&env, "eve.testnet".to_string(), 1).unwrap_err(),
        CallError::Access(AccessError::Denied)
    );
    assert_eq!(
        contract.request_near(&env, "alice.testnet".to_string(), REQUEST_ALLOWANCE + 1).unwrap_err(),
        CallError::Validation(ValidationError::OverAllowance)
    );
    assert_eq!(
        contract.request_near(&env, "alice.near".to_string(), 1).unwrap_err(),
        CallError::Validation(ValidationError::InvalidAccountId)
    );
    assert_eq!(
        contract.request_near(&env, "al--ice.testnet".to_string(), 1).unwrap_err(),
        CallError::Validation(ValidationError::InvalidAccountId)
    );
    assert_eq!(contract.get_stats().successful_requests, 0);
    assert_eq!(contract.last_request_ms(&"alice.testnet".to_string()), None);
}

#[test]
fn request_near_accepts_separated_names() {
    let mut contract = Contract::default();
    let env = env_at("alice", 0);
    assert!(contract.request_near(&env, "Al-ice_2.testnet".to_string(), 1).is_ok());
}

#[test]
fn request_near_applies_the_cooldown() {
    let mut contract = Contract::default();
    contract.request_near(&env_at("alice", 10), "alice.testnet".to_string(), 1).unwrap();
    assert_eq!(
        contract.request_near(&env_at("alice", 10 + HOUR_MS - 1), "alice.testnet".to_string(), 1).unwrap_err(),
        CallError::RateLimit(RateLimitError::TooSoon)
    );
    assert_eq!(contract.get_stats().successful_requests, 1);
    contract.request_near(&env_at("alice", 10 + HOUR_MS), "alice.testnet".to_string(), 1).unwrap();
    assert_eq!(contract.get_stats().successful_requests, 2);
    assert_eq!(contract.last_request_ms(&"alice.testnet".to_string()), Some(10 + HOUR_MS));
}

#[test]
fn request_near_prunes_expired_receivers() {
    let mut contract = Contract::default();
    contract.request_near(&env_at("bob", 0), "bob.testnet".to_string(), 1).unwrap();
    contract.request_near(&env_at("alice", REQUEST_GAP_MS + 1), "alice.testnet".to_string(), 1).unwrap();
    assert_eq!(contract.last_request_ms(&"bob.testnet".to_string()), None);
    assert_eq!(contract.last_request_ms(&"alice.testnet".to_string()), Some(REQUEST_GAP_MS + 1));
}

#[test]
fn request_near_with_takes_the_form_check() {
    let mut contract = Contract::default();
    let env = env_at("alice", 0);
    assert_eq!(
        contract.request_near_with(&env, "anything".to_string(), 1, false).unwrap_err(),
        CallError::Validation(ValidationError::InvalidAccountId)
    );
    assert!(contract.request_near_with(&env, "anything".to_string(), 1, true).is_ok());
}

#[test]
fn clear_recent_receivers_forgets_cooldowns() {
    let mut contract = Contract::default();
    contract.request_near(&env_at("alice", 0), "alice.testnet".to_string(), 1).unwrap();
    assert_eq!(
        contract.clear_recent_receivers(&env_at("alice", 0)),
        Err(CallError::Access(AccessError::NotSelf))
    );
    contract.clear_recent_receivers(&env_at(FAUCET, 0)).unwrap();
    assert_eq!(contract.last_request_ms(&"alice.testnet".to_string()), None);
}

#[test]
fn token_disburse_scenario() {
    let mut contract = faucet_with_token(20, 100);
    let receiver = "r.testnet".to_string();
    let chain = contract
        .ft_request_funds(&env_at("anyone", 1_000), "token.testnet".to_string(), receiver.clone(), 15)
        .unwrap()
        .unwrap();
    assert_eq!(chain.steps.len(), 1);
    assert_eq!(chain.steps[0].actions.len(), 2);
    assert!(matches!(
        &chain.steps[0].actions[0],
        RemoteAction::FunctionCall { method: Method::StorageDeposit { account_id }, .. } if account_id == "r.testnet"
    ));
    assert!(matches!(
        &chain.steps[0].actions[1],
        RemoteAction::FunctionCall { method: Method::FtTransfer { receiver_id, amount: 15 }, deposit: 1, .. }
            if receiver_id == "r.testnet"
    ));
    let before = contract.get_stats().successful_requests;
    contract
        .update_ft_balance_and_stats(&env_at(FAUCET, 2_000), "token.testnet".to_string(), 15, Ok(()))
        .unwrap();
    assert_eq!(balance_of(&contract, "token.testnet"), 85);
    assert_eq!(contract.get_stats().successful_requests, before + 1);

    assert_eq!(
        contract.ft_request_funds(&env_at("anyone", 3_000), "token.testnet".to_string(), receiver.clone(), 15).unwrap_err(),
        CallError::RateLimit(RateLimitError::TooSoon)
    );
    assert_eq!(balance_of(&contract, "token.testnet"), 85);

    assert_eq!(
        contract.ft_request_funds(
            &env_at("anyone", 1_000 + REQUEST_GAP_MS),
            "token.testnet".to_string(),
            receiver,
            25
        ).unwrap_err(),
        CallError::Validation(ValidationError::OverAllowance)
    );
    assert_eq!(balance_of(&contract, "token.testnet"), 85);
}

#[test]
fn token_request_refusals() {
    let mut contract = faucet_with_token(20, 10);
    contract.add_to_blacklist(&env_at(FAUCET, 0), "eve.testnet".to_string()).unwrap();
    let env = env_at("anyone", 0);
    assert_eq!(
        contract.ft_request_funds(&env, "token.testnet".to_string(), "eve.testnet".to_string(), 1).unwrap_err(),
        CallError::Access(AccessError::Denied)
    );
    assert!(contract
        .ft_request_funds(&env, "other.testnet".to_string(), "bob.testnet".to_string(), 1)
        .unwrap()
        .is_none());
    assert_eq!(
        contract.ft_request_funds(&env, "token.testnet".to_string(), "bob.testnet".to_string(), 15).unwrap_err(),
        CallError::Validation(ValidationError::OverBalance)
    );
    assert_eq!(contract.last_request_ms(&"bob.testnet".to_string()), None);
}

#[test]
fn failed_transfer_commits_nothing() {
    let mut contract = faucet_with_token(20, 100);
    contract
        .ft_request_funds(&env_at("anyone", 0), "token.testnet".to_string(), "r.testnet".to_string(), 15)
        .unwrap();
    contract
        .update_ft_balance_and_stats(&env_at(FAUCET, 0), "token.testnet".to_string(), 15, Err(RemoteStepFailure))
        .unwrap();
    assert_eq!(balance_of(&contract, "token.testnet"), 100);
    assert_eq!(contract.get_stats().successful_requests, 0);
    assert_eq!(contract.last_request_ms(&"r.testnet".to_string()), Some(0));
}

#[test]
fn commits_never_drive_the_balance_negative() {
    let mut contract = faucet_with_token(60, 100);
    let admin = env_at(FAUCET, 0);
    contract.update_ft_balance_and_stats(&admin, "token.testnet".to_string(), 60, Ok(())).unwrap();
    contract.update_ft_balance_and_stats(&admin, "token.testnet".to_string(), 60, Ok(())).unwrap();
    assert_eq!(balance_of(&contract, "token.testnet"), 40);
    assert_eq!(contract.get_stats().successful_requests, 1);
    contract.update_ft_balance_and_stats(&admin, "token.testnet".to_string(), 15, Ok(())).unwrap();
    contract.update_ft_balance_and_stats(&admin, "token.testnet".to_string(), 25, Ok(())).unwrap();
    assert_eq!(balance_of(&contract, "token.testnet"), 0);
}

#[test]
fn commit_refuses_other_callers() {
    let mut contract = faucet_with_token(20, 100);
    assert_eq!(
        contract.update_ft_balance_and_stats(&env_at("mallory", 0), "token.testnet".to_string(), 15, Ok(())),
        Err(CallError::Access(AccessError::NotSelf))
    );
    assert_eq!(
        contract.ft_list_token(&env_at("mallory", 0), Ok(metadata("X")), "x.testnet".to_string(), 1, 2),
        Err(CallError::Access(AccessError::NotSelf))
    );
    assert_eq!(balance_of(&contract, "token.testnet"), 100);
    assert!(contract.ft_get_token_config(&"x.testnet".to_string()).is_none());
}

#[test]
fn failed_metadata_query_lists_nothing() {
    let mut contract = Contract::default();
    contract
        .ft_list_token(&env_at(FAUCET, 0), Err(RemoteStepFailure), "token.testnet".to_string(), 1, 2)
        .unwrap();
    assert!(contract.ft_get_token_config(&"token.testnet".to_string()).is_none());
    assert_eq!(contract.get_stats().ft_contracts_listed, 0);
}

#[test]
fn top_up_and_refund() {
    let mut contract = faucet_with_token(20, 100);
    let token = env_at("token.testnet", 0);
    assert_eq!(
        contract.ft_on_transfer(&token, "owner".to_string(), 50, TransferMessage::TopUp).unwrap().0,
        0
    );
    assert_eq!(balance_of(&contract, "token.testnet"), 150);
    let stranger = env_at("other.testnet", 0);
    assert_eq!(
        contract.ft_on_transfer(&stranger, "owner".to_string(), 50, TransferMessage::TopUp).unwrap().0,
        50
    );
    assert!(matches!(
        contract.ft_on_transfer(&token, "owner".to_string(), 1, TransferMessage::Malformed),
        Err(CallError::Validation(ValidationError::MalformedMessage))
    ));
    assert!(matches!(
        contract.ft_on_transfer(&token, "owner".to_string(), u128::MAX, TransferMessage::TopUp),
        Err(CallError::Validation(ValidationError::BalanceOverflow))
    ));
    assert_eq!(balance_of(&contract, "token.testnet"), 150);
}

#[test]
fn listing_from_a_factory() {
    let mut contract = Contract::default();
    let mut env = env_at("token.f.testnet", 0);
    env.signer_account_id = "f.testnet".to_string();
    assert_eq!(
        contract.ft_list_from_factory(&env, 5, 50, metadata("T")),
        Err(CallError::Access(AccessError::NotPrivileged))
    );
    assert_eq!(
        contract.add_factory(&env, "f.testnet".to_string()),
        Err(CallError::Access(AccessError::NotSelf))
    );
    contract.add_factory(&env_at(FAUCET, 0), "f.testnet".to_string()).unwrap();
    contract.ft_list_from_factory(&env, 5, 50, metadata("T")).unwrap();
    let cfg = contract.ft_get_token_config(&"token.f.testnet".to_string()).unwrap();
    assert_eq!(cfg.ft_request_allowance, 5);
    assert_eq!(cfg.ft_available_balance, 50);
    assert_eq!(cfg.ft_metadata.name, "T");
}

#[test]
fn change_allowance_and_delist() {
    let mut contract = faucet_with_token(20, 100);
    let token = env_at("token.testnet", 0);
    contract.ft_change_allowance(&token, 30).unwrap();
    assert_eq!(contract.ft_get_token_config(&"token.testnet".to_string()).unwrap().ft_request_allowance, 30);
    assert_eq!(
        contract.ft_change_allowance(&env_at("other.testnet", 0), 30),
        Err(CallError::Validation(ValidationError::NotListed))
    );
    assert_eq!(
        contract.ft_remove_token(&token, false),
        Err(CallError::Validation(ValidationError::NotConfirmed))
    );
    assert!(contract.ft_get_token_config(&"token.testnet".to_string()).is_some());
    contract.ft_remove_token(&token, true).unwrap();
    assert!(contract.ft_get_token_config(&"token.testnet".to_string()).is_none());
    contract.ft_remove_token(&token, true).unwrap();
    assert!(contract.ft_list_tokens().is_empty());
}

#[test]
fn list_tokens_returns_each_listing() {
    let mut contract = faucet_with_token(20, 100);
    let admin = env_at(FAUCET, 0);
    contract.ft_list_token(&admin, Ok(metadata("Second")), "second.testnet".to_string(), 3, 9).unwrap();
    contract.ft_list_token(&admin, Ok(metadata("Second")), "second.testnet".to_string(), 3, 9).unwrap();
    let mut listed = contract.ft_list_tokens();
    listed.sort_by(|a, b| a.ft_contract_id.cmp(&b.ft_contract_id));
    assert_eq!(listed.len(), 2);
    assert_eq!(listed[0].ft_contract_id, "second.testnet");
    assert_eq!(listed[0].ft_config.ft_available_balance, 9);
    assert_eq!(listed[0].ft_config.ft_metadata.name, "Second");
    assert_eq!(listed[1].ft_contract_id, "token.testnet");
    assert_eq!(listed[1].ft_config.ft_request_allowance, 20);
    assert_eq!(contract.get_stats().ft_contracts_listed, 2);
}

#[test]
fn request_near_decides_on_the_balance_after_the_transfer() {
    let mut contract = Contract::default();
    let mut env = env_at("alice", 0);
    env.account_balance = MIN_BALANCE_THRESHOLD;
    assert_eq!(contract.request_near(&env, "alice.testnet".to_string(), 1).unwrap().len(), 2);
    let mut env = env_at("bob", 0);
    env.account_balance = MIN_BALANCE_THRESHOLD + 1;
    assert_eq!(contract.request_near(&env, "bob.testnet".to_string(), 1).unwrap().len(), 1);
}

#[test]
fn unlisted_token_request_changes_nothing() {
    let mut contract = faucet_with_token(20, 100);
    let env = env_at("anyone", 0);
    assert!(contract
        .ft_request_funds(&env, "other.testnet".to_string(), "bob.testnet".to_string(), 1)
        .unwrap()
        .is_none());
    assert_eq!(contract.last_request_ms(&"bob.testnet".to_string()), None);
    assert_eq!(balance_of(&contract, "token.testnet"), 100);
    assert_eq!(contract.get_stats().successful_requests, 0);
}
