//! Fungible tokens on the faucet: listing, top-ups, requests and their
//! commit step.

use vstd::prelude::*;
use crate::access::{authorize, Capability};
use crate::chain::{Chain, Continuation, Method, RemoteAction, RemoteStep};
use crate::cooldown::{replay, too_soon, CooldownEvent};
use crate::env::{bumped, AccessError, CallEnv, CallError, RateLimitError, RemoteStepFailure, ValidationError};
use crate::metadata::{TokenMetadata, TokenMetadataView};
use super::Contract;

verus! {

/// Gas for the metadata query, in teragas.
pub const LIST_GAS_TGAS: u64 = 50;

/// Storage deposit that registers a receiver with a token ledger: a tenth of
/// a NEAR, in yoctoNEAR.
pub const STORAGE_DEPOSIT: u128 = 100_000_000_000_000_000_000_000;

/// Gas for the storage deposit, in teragas.
pub const STORAGE_DEPOSIT_GAS_TGAS: u64 = 5;

/// Gas for the token transfer, in teragas.
pub const FT_TRANSFER_GAS_TGAS: u64 = 20;

/// Deposit that a token transfer requires: one yoctoNEAR.
pub const ONE_YOCTO: u128 = 1;

/// How a listed token is handed out.
#[derive(Debug)]
pub struct FTconfig {
    /// Largest amount one request may ask for.
    pub ft_request_allowance: u128,
    /// Amount the faucet holds and may still hand out.
    pub ft_available_balance: u128,
    pub ft_metadata: TokenMetadata,
}

/// A listed token and its configuration.
#[derive(Debug)]
pub struct FT {
    pub ft_contract_id: String,
    pub ft_config: FTconfig,
}

/// The message that comes with tokens sent to the faucet.
#[derive(Debug, Clone, Copy, PartialEq, Eq, Structural)]
pub enum TransferMessage {
    /// No message: a top-up of a listed token.
    TopUp,
    /// A request to list the sending token.
    List { ft_request_allowance: u128 },
    /// A message that could not be read.
    Malformed,
}

impl FTconfig {
    /// An independent copy with the same values.
    pub fn duplicate(&self) -> (r: FTconfig)
        ensures
            r.same_as(self),
    {
        FTconfig {
            ft_request_allowance: self.ft_request_allowance,
            ft_available_balance: self.ft_available_balance,
            ft_metadata: self.ft_metadata.duplicate(),
        }
    }

    /// Both configurations hold the same values.
    pub open spec fn same_as(&self, other: &FTconfig) -> bool {
        &&& self.ft_request_allowance == other.ft_request_allowance
        &&& self.ft_available_balance == other.ft_available_balance
        &&& self.ft_metadata@ == other.ft_metadata@
    }
}

/// `c` queries the token `token` for its metadata, then lists it.
pub open spec fn is_list_chain(c: Chain, token: Seq<char>, allowance: u128, available: u128) -> bool {
    &&& c.steps@.len() == 1
    &&& c.steps@[0].receiver_id@ == token
    &&& c.steps@[0].actions@ == seq![
        RemoteAction::FunctionCall { method: Method::FtMetadata, deposit: 0, gas_tgas: LIST_GAS_TGAS },
    ]
    &&& match c.continuation {
        Some(Continuation::ListToken { ft_contract_id, ft_request_allowance, ft_available_balance }) =>
            ft_contract_id@ == token && ft_request_allowance == allowance && ft_available_balance
                == available,
        _ => false,
    }
}

/// `c` registers `receiver` with the token `token` and transfers `amount` to
/// it, in one batch, then accounts for it.
pub open spec fn is_disburse_chain(c: Chain, token: Seq<char>, receiver: Seq<char>, amount: u128) -> bool {
    &&& c.steps@.len() == 1
    &&& c.steps@[0].receiver_id@ == token
    &&& c.steps@[0].actions@.len() == 2
    &&& match c.steps@[0].actions@[0] {
        RemoteAction::FunctionCall { method: Method::StorageDeposit { account_id }, deposit, gas_tgas } =>
            account_id@ == receiver && deposit == STORAGE_DEPOSIT && gas_tgas == STORAGE_DEPOSIT_GAS_TGAS,
        _ => false,
    }
    &&& match c.steps@[0].actions@[1] {
        RemoteAction::FunctionCall { method: Method::FtTransfer { receiver_id, amount: a }, deposit, gas_tgas } =>
            receiver_id@ == receiver && a == amount && deposit == ONE_YOCTO && gas_tgas == FT_TRANSFER_GAS_TGAS,
        _ => false,
    }
    &&& match c.continuation {
        Some(Continuation::UpdateFtBalance { ft_contract_id, amount: a }) => ft_contract_id@ == token && a
            == amount,
        _ => false,
    }
}

/// A token configuration with the given values.
pub open spec fn config_is(c: FTconfig, allowance: u128, available: u128, metadata: TokenMetadataView) -> bool {
    c.ft_request_allowance == allowance && c.ft_available_balance == available && c.ft_metadata@ == metadata
}

/// The balance after committing a request of `amount`: it never goes below
/// zero, so a request larger than the balance is not committed.
pub open spec fn committed_balance(balance: u128, amount: u128) -> u128 {
    if amount <= balance {
        (balance - amount) as u128
    } else {
        balance
    }
}

impl Contract {
    /// Tokens sent to the faucet: with no message they top up the sending
    /// token's balance (or are refunded when it is not listed); with a
    /// listing request they start listing the sending token. Returns the
    /// amount to refund and the chain to dispatch.
    pub fn ft_on_transfer(
        &mut self,
        env: &CallEnv,
        sender_id: String,
        amount: u128,
        msg: TransferMessage,
    ) -> (r: Result<(u128, Option<Chain>), CallError>)
        requires
            old(self).wf(),
        ensures
            final(self).wf(),
            final(self).same_limits(&*old(self)),
            final(self).receivers() == old(self).receivers(),
            final(self).requests() == old(self).requests(),
            final(self).denied() == old(self).denied(),
            final(self).factories() == old(self).factories(),
            ({
                let token = env.predecessor_account_id@;
                let pre = old(self).tokens();
                match msg {
                    TransferMessage::TopUp => if !pre.contains_key(token) {
                        r == Ok::<(u128, Option<Chain>), CallError>((amount, None))
                            && final(self).tokens() == pre
                    } else if pre[token].ft_available_balance + amount > u128::MAX {
                        r == Err::<(u128, Option<Chain>), CallError>(
                            CallError::Validation(ValidationError::BalanceOverflow),
                        ) && final(self).tokens() == pre
                    } else {
                        r == Ok::<(u128, Option<Chain>), CallError>((0, None))
                            && final(self).tokens().dom() == pre.dom()
                            && (forall|k: Seq<char>| #[trigger] pre.contains_key(k) && k != token
                                ==> final(self).tokens()[k] == pre[k])
                            && config_is(
                                final(self).tokens()[token],
                                pre[token].ft_request_allowance,
                                (pre[token].ft_available_balance + amount) as u128,
                                pre[token].ft_metadata@,
                            )
                    },
                    TransferMessage::List { ft_request_allowance } => final(self).tokens() == pre
                        && match r {
                        Ok((refund, Some(c))) => refund == 0 && is_list_chain(
                            c,
                            token,
                            ft_request_allowance,
                            amount,
                        ),
                        _ => false,
                    },
                    TransferMessage::Malformed => r == Err::<(u128, Option<Chain>), CallError>(
                        CallError::Validation(ValidationError::MalformedMessage),
                    ) && final(self).tokens() == pre,
                }
            }),
    {
        match msg {
            TransferMessage::TopUp => {
                match self.ft_faucet.get(&env.predecessor_account_id) {
                    None => Ok((amount, None)),
                    Some(cfg) => {
                        if cfg.ft_available_balance > u128::MAX - amount {
                            return Err(CallError::Validation(ValidationError::BalanceOverflow));
                        }
                        let mut updated = cfg.duplicate();
                        updated.ft_available_balance = cfg.ft_available_balance + amount;
                        self.ft_faucet.insert(env.predecessor_account_id.clone(), updated);
                        Ok((0, None))
                    },
                }
            },
            TransferMessage::List { ft_request_allowance } => {
                let mut steps: Vec<RemoteStep> = Vec::new();
                steps.push(
                    RemoteStep::single(
                        env.predecessor_account_id.clone(),
                        RemoteAction::FunctionCall {
                            method: Method::FtMetadata,
                            deposit: 0,
                            gas_tgas: LIST_GAS_TGAS,
                        },
                    ),
                );
                let chain = Chain {
                    steps,
                    continuation: Some(
                        Continuation::ListToken {
                            ft_contract_id: env.predecessor_account_id.clone(),
                            ft_request_allowance,
                            ft_available_balance: amount,
                        },
                    ),
                };
                Ok((0, Some(chain)))
            },
            TransferMessage::Malformed => Err(CallError::Validation(ValidationError::MalformedMessage)),
        }
    }

    /// Lists the calling token directly, for a transaction signed by a known
    /// factory.
    pub fn ft_list_from_factory(
        &mut self,
        env: &CallEnv,
        ft_request_allowance: u128,
        ft_initial_balance: u128,
        ft_metadata: TokenMetadata,
    ) -> (r: Result<(), CallError>)
        requires
            old(self).wf(),
        ensures
            final(self).wf(),
            final(self).same_limits(&*old(self)),
            !old(self).factories().contains(env.signer_account_id@) ==> r == Err::<(), CallError>(
                CallError::Access(AccessError::NotPrivileged),
            ) && *final(self) == *old(self),
            old(self).factories().contains(env.signer_account_id@) ==> {
                &&& r is Ok
                &&& final(self).tokens().dom() == old(self).tokens().dom().insert(env.predecessor_account_id@)
                &&& forall|k: Seq<char>| #[trigger]
                    old(self).tokens().contains_key(k) && k != env.predecessor_account_id@ ==> final(self).tokens()[k] == old(self).tokens()[k]
                &&& config_is(
                    final(self).tokens()[env.predecessor_account_id@],
                    ft_request_allowance,
                    ft_initial_balance,
                    ft_metadata@,
                )
                &&& final(self).receivers() == old(self).receivers()
                &&& final(self).requests() == old(self).requests()
                &&& final(self).denied() == old(self).denied()
                &&& final(self).factories() == old(self).factories()
            },
    {
        if let Err(e) = authorize(
            &env.signer_account_id,
            Capability::Privileged,
            &env.current_account_id,
            &self.factory_list,
        ) {
            return Err(CallError::Access(e));
        }
        self.ft_faucet.insert(
            env.predecessor_account_id.clone(),
            FTconfig { ft_request_allowance, ft_available_balance: ft_initial_balance, ft_metadata },
        );
        Ok(())
    }

    /// Adds a factory. Only the faucet itself may call this.
    pub fn add_factory(&mut self, env: &CallEnv, factory_id: String) -> (r: Result<(), CallError>)
        requires
            old(self).wf(),
        ensures
            final(self).wf(),
            final(self).same_limits(&*old(self)),
            env.predecessor_account_id@ != env.current_account_id@ ==> r == Err::<(), CallError>(
                CallError::Access(AccessError::NotSelf),
            ) && *final(self) == *old(self),
            env.predecessor_account_id@ == env.current_account_id@ ==> r is Ok && final(self).factories()
                == old(self).factories().insert(factory_id@) && final(self).tokens() == old(self).tokens()
                && final(self).denied() == old(self).denied() && final(self).receivers() == old(self).receivers() && final(self).requests() == old(self).requests(),
    {
        if let Err(e) = authorize(
            &env.predecessor_account_id,
            Capability::SelfOnly,
            &env.current_account_id,
            &self.factory_list,
        ) {
            return Err(CallError::Access(e));
        }
        self.factory_list.insert(factory_id);
        Ok(())
    }

    /// Continuation of listing: stores the token with the metadata that the
    /// query returned, or nothing when the query failed. Only the faucet
    /// itself may call this.
    pub fn ft_list_token(
        &mut self,
        env: &CallEnv,
        call_result: Result<TokenMetadata, RemoteStepFailure>,
        ft_contract_id: String,
        ft_request_allowance: u128,
        ft_available_balance: u128,
    ) -> (r: Result<(), CallError>)
        requires
            old(self).wf(),
        ensures
            final(self).wf(),
            final(self).same_limits(&*old(self)),
            final(self).factories() == old(self).factories(),
            env.predecessor_account_id@ != env.current_account_id@ ==> r == Err::<(), CallError>(
                CallError::Access(AccessError::NotSelf),
            ) && *final(self) == *old(self),
            env.predecessor_account_id@ == env.current_account_id@ ==> r is Ok && match call_result {
                Err(_) => *final(self) == *old(self),
                Ok(m) => {
                    &&& final(self).tokens().dom() == old(self).tokens().dom().insert(ft_contract_id@)
                    &&& forall|k: Seq<char>| #[trigger]
                        old(self).tokens().contains_key(k) && k != ft_contract_id@ ==> final(self).tokens()[k] == old(self).tokens()[k]
                    &&& config_is(
                        final(self).tokens()[ft_contract_id@],
                        ft_request_allowance,
                        ft_available_balance,
                        m@,
                    )
                    &&& final(self).receivers() == old(self).receivers()
                    &&& final(self).requests() == old(self).requests()
                    &&& final(self).denied() == old(self).denied()
                },
            },
    {
        if let Err(e) = authorize(
            &env.predecessor_account_id,
            Capability::SelfOnly,
            &env.current_account_id,
            &self.factory_list,
        ) {
            return Err(CallError::Access(e));
        }
        match call_result {
            Ok(ft_metadata) => {
                self.ft_faucet.insert(
                    ft_contract_id,
                    FTconfig { ft_request_allowance, ft_available_balance, ft_metadata },
                );
            },
            Err(_) => {},
        }
        Ok(())
    }

    /// Changes the calling token's request allowance.
    pub fn ft_change_allowance(&mut self, env: &CallEnv, new_request_allowance: u128) -> (r: Result<
        (),
        CallError,
    >)
        requires
            old(self).wf(),
        ensures
            final(self).wf(),
            final(self).same_limits(&*old(self)),
            final(self).factories() == old(self).factories(),
            !old(self).tokens().contains_key(env.predecessor_account_id@) ==> r == Err::<(), CallError>(
                CallError::Validation(ValidationError::NotListed),
            ) && *final(self) == *old(self),
            old(self).tokens().contains_key(env.predecessor_account_id@) ==> {
                let token = env.predecessor_account_id@;
                &&& r is Ok
                &&& final(self).tokens().dom() == old(self).tokens().dom()
                &&& forall|k: Seq<char>| #[trigger]
                    old(self).tokens().contains_key(k) && k != token ==> final(self).tokens()[k] == old(self).tokens()[k]
                &&& config_is(
                    final(self).tokens()[token],
                    new_request_allowance,
                    old(self).tokens()[token].ft_available_balance,
                    old(self).tokens()[token].ft_metadata@,
                )
                &&& final(self).receivers() == old(self).receivers()
                &&& final(self).requests() == old(self).requests()
                &&& final(self).denied() == old(self).denied()
            },
    {
        match self.ft_faucet.get(&env.predecessor_account_id) {
            None => Err(CallError::Validation(ValidationError::NotListed)),
            Some(cfg) => {
                let mut updated = cfg.duplicate();
                updated.ft_request_allowance = new_request_allowance;
                self.ft_faucet.insert(env.predecessor_account_id.clone(), updated);
                Ok(())
            },
        }
    }

    /// Delists the calling token; `confirm` must be set. Delisting a token
    /// that is not listed changes nothing.
    pub fn ft_remove_token(&mut self, env: &CallEnv, confirm: bool) -> (r: Result<(), CallError>)
        requires
            old(self).wf(),
        ensures
            final(self).wf(),
            final(self).same_limits(&*old(self)),
            !confirm ==> r == Err::<(), CallError>(CallError::Validation(ValidationError::NotConfirmed))
                && *final(self) == *old(self),
            confirm ==> r is Ok && final(self).tokens() == old(self).tokens().remove(
                env.predecessor_account_id@,
            ) && final(self).receivers() == old(self).receivers() && final(self).requests() == old(self).requests() && final(self).denied() == old(self).denied() && final(self).factories() == old(self).factories(),
    {
        if !confirm {
            return Err(CallError::Validation(ValidationError::NotConfirmed));
        }
        let _ = self.ft_faucet.remove(&env.predecessor_account_id);
        Ok(())
    }

    /// The configuration of a listed token.
    pub fn ft_get_token_config(&self, ft_contract_id: &String) -> (r: Option<&FTconfig>)
        requires
            self.wf(),
        ensures
            match r {
                Some(c) => self.tokens().contains_key(ft_contract_id@) && *c == self.tokens()[ft_contract_id@],
                None => !self.tokens().contains_key(ft_contract_id@),
            },
    {
        self.ft_faucet.get(ft_contract_id)
    }

    /// Every listed token with its configuration, each once.
    pub fn ft_list_tokens(&self) -> (r: Vec<FT>)
        requires
            self.wf(),
        ensures
            self.tokens().dom().finite(),
            r@.len() == self.tokens().dom().len(),
            forall|i: int|
                0 <= i < r@.len() ==> self.tokens().contains_key(#[trigger] r@[i].ft_contract_id@)
                    && r@[i].ft_config.same_as(&self.tokens()[r@[i].ft_contract_id@]),
            forall|i: int, j: int|
                0 <= i < r@.len() && 0 <= j < r@.len() && i != j ==> r@[i].ft_contract_id@ != r@[j].ft_contract_id@,
    {
        proof {
            self.ft_faucet.lemma_len();
        }
        let n = self.ft_faucet.len();
        let mut out: Vec<FT> = Vec::new();
        let mut i: usize = 0;
        while i < n
            invariant
                self.wf(),
                n == self.ft_faucet.stored(),
                i <= n,
                out@.len() == i,
                forall|j: int| 0 <= j < i ==> (#[trigger] out@[j]).ft_contract_id@ == self.ft_faucet.key_at(j),
                forall|j: int|
                    0 <= j < i ==> self.tokens().contains_key(#[trigger] out@[j].ft_contract_id@)
                        && out@[j].ft_config.same_as(&self.tokens()[out@[j].ft_contract_id@]),
            decreases n - i,
        {
            let (k, v) = self.ft_faucet.entry_at(i);
            out.push(FT { ft_contract_id: k.clone(), ft_config: v.duplicate() });
            i = i + 1;
        }
        proof {
            assert forall|a: int, b: int|
                0 <= a < out@.len() && 0 <= b < out@.len() && a != b implies out@[a].ft_contract_id@
                != out@[b].ft_contract_id@ by {
                self.ft_faucet.lemma_distinct(a, b);
            }
        }
        out
    }

    /// What a request of `amount` of the token `token` for `receiver` does to
    /// the faucet `pre`.
    pub open spec fn token_request(
        pre: Contract,
        post: Contract,
        env: CallEnv,
        token: Seq<char>,
        receiver: Seq<char>,
        amount: u128,
        r: Result<Option<Chain>, CallError>,
    ) -> bool {
        if pre.denied().contains(receiver) {
            r == Err::<Option<Chain>, CallError>(CallError::Access(AccessError::Denied)) && post == pre
        } else if !pre.tokens().contains_key(token) {
            r == Ok::<Option<Chain>, CallError>(None) && post == pre
        } else if amount > pre.tokens()[token].ft_request_allowance {
            r == Err::<Option<Chain>, CallError>(CallError::Validation(ValidationError::OverAllowance)) && post == pre
        } else if amount > pre.tokens()[token].ft_available_balance {
            r == Err::<Option<Chain>, CallError>(CallError::Validation(ValidationError::OverBalance)) && post == pre
        } else if too_soon(pre.receivers(), receiver, env.block_timestamp_ms, pre.gap()) {
            r == Err::<Option<Chain>, CallError>(CallError::RateLimit(RateLimitError::TooSoon)) && post == pre
        } else {
            &&& post.same_settings(&pre)
            &&& post.requests() == pre.requests()
            &&& post.receivers() == pre.receivers().insert(receiver, env.block_timestamp_ms)
            &&& match r {
                Ok(Some(c)) => is_disburse_chain(c, token, receiver, amount),
                _ => false,
            }
        }
    }

    /// Hands out `amount` of the listed token `ft_contract_id` to
    /// `receiver_id`: refused for a deny-listed receiver, above the token's
    /// allowance or available balance, or within the receiver's cooldown. For
    /// a token that is not listed nothing happens and nothing is dispatched.
    /// The balance is only reduced by the continuation.
    pub fn ft_request_funds(
        &mut self,
        env: &CallEnv,
        ft_contract_id: String,
        receiver_id: String,
        amount: u128,
    ) -> (r: Result<Option<Chain>, CallError>)
        requires
            old(self).wf(),
        ensures
            final(self).wf(),
            Contract::token_request(*old(self), *final(self), *env, ft_contract_id@, receiver_id@, amount, r),
    {
        if let Err(e) = authorize(&receiver_id, Capability::NotDenied, &env.current_account_id, &self.blacklist) {
            return Err(CallError::Access(e));
        }
        match self.ft_faucet.get(&ft_contract_id) {
            None => {
                return Ok(None);
            },
            Some(cfg) => {
                if amount > cfg.ft_request_allowance {
                    return Err(CallError::Validation(ValidationError::OverAllowance));
                }
                if amount > cfg.ft_available_balance {
                    return Err(CallError::Validation(ValidationError::OverBalance));
                }
            },
        }
        if self.recent_receivers.is_too_soon(&receiver_id, env.block_timestamp_ms, self.request_gap_required) {
            return Err(CallError::RateLimit(RateLimitError::TooSoon));
        }
        let recorded = self.recent_receivers.check_and_record(
            receiver_id.clone(),
            env.block_timestamp_ms,
            self.request_gap_required,
        );
        assert(recorded is Ok);
        let mut actions: Vec<RemoteAction> = Vec::new();
        actions.push(
            RemoteAction::FunctionCall {
                method: Method::StorageDeposit { account_id: receiver_id.clone() },
                deposit: STORAGE_DEPOSIT,
                gas_tgas: STORAGE_DEPOSIT_GAS_TGAS,
            },
        );
        actions.push(
            RemoteAction::FunctionCall {
                method: Method::FtTransfer { receiver_id, amount },
                deposit: ONE_YOCTO,
                gas_tgas: FT_TRANSFER_GAS_TGAS,
            },
        );
        let mut steps: Vec<RemoteStep> = Vec::new();
        steps.push(RemoteStep { receiver_id: ft_contract_id.clone(), actions });
        Ok(Some(Chain { steps, continuation: Some(Continuation::UpdateFtBalance { ft_contract_id, amount }) }))
    }

    /// Continuation of a token request: when the transfer succeeded and the
    /// token is still listed, takes `amount` off its balance (never below
    /// zero) and counts the request. Only the faucet itself may call this.
    pub fn update_ft_balance_and_stats(
        &mut self,
        env: &CallEnv,
        ft_contract_id: String,
        amount: u128,
        call_result: Result<(), RemoteStepFailure>,
    ) -> (r: Result<(), CallError>)
        requires
            old(self).wf(),
        ensures
            final(self).wf(),
            final(self).same_limits(&*old(self)),
            final(self).factories() == old(self).factories(),
            env.predecessor_account_id@ != env.current_account_id@ ==> r == Err::<(), CallError>(
                CallError::Access(AccessError::NotSelf),
            ) && *final(self) == *old(self),
            env.predecessor_account_id@ == env.current_account_id@ ==> r is Ok && ({
                let token = ft_contract_id@;
                let pre = old(self).tokens();
                if call_result is Err || !pre.contains_key(token) || amount > pre[token].ft_available_balance {
                    *final(self) == *old(self)
                } else {
                    &&& final(self).tokens().dom() == pre.dom()
                    &&& forall|k: Seq<char>| #[trigger]
                        pre.contains_key(k) && k != token ==> final(self).tokens()[k] == pre[k]
                    &&& config_is(
                        final(self).tokens()[token],
                        pre[token].ft_request_allowance,
                        committed_balance(pre[token].ft_available_balance, amount),
                        pre[token].ft_metadata@,
                    )
                    &&& final(self).requests() == bumped(old(self).requests())
                    &&& final(self).receivers() == old(self).receivers()
                    &&& final(self).denied() == old(self).denied()
                }
            }),
    {
        if let Err(e) = authorize(
            &env.predecessor_account_id,
            Capability::SelfOnly,
            &env.current_account_id,
            &self.factory_list,
        ) {
            return Err(CallError::Access(e));
        }
        if call_result.is_err() {
            return Ok(());
        }
        match self.ft_faucet.get(&ft_contract_id) {
            None => Ok(()),
            Some(cfg) => {
                if amount > cfg.ft_available_balance {
                    return Ok(());
                }
                let mut updated = cfg.duplicate();
                updated.ft_available_balance = cfg.ft_available_balance - amount;
                self.ft_faucet.insert(ft_contract_id, updated);
                if self.successful_requests < u64::MAX {
                    self.successful_requests = self.successful_requests + 1;
                }
                Ok(())
            },
        }
    }
}

/// The balance after committing each of `amounts` in turn.
pub open spec fn after_commits(balance: u128, amounts: Seq<u128>) -> u128
    decreases amounts.len(),
{
    if amounts.len() == 0 {
        balance
    } else {
        committed_balance(after_commits(balance, amounts.drop_last()), amounts.last())
    }
}

/// The sum of `amounts`.
pub open spec fn total(amounts: Seq<u128>) -> int
    decreases amounts.len(),
{
    if amounts.len() == 0 {
        0
    } else {
        total(amounts.drop_last()) + amounts.last()
    }
}

/// Each of `amounts` found enough balance when it was committed.
pub open spec fn all_committed(balance: u128, amounts: Seq<u128>) -> bool {
    forall|k: int| 0 <= k < amounts.len() ==> amounts[k] <= after_commits(balance, #[trigger] amounts.take(k))
}

/// After a run of commits that each found enough balance, the balance is the
/// initial balance less the sum of the committed amounts, and never negative.
pub proof fn lemma_balance_accounting(initial: u128, amounts: Seq<u128>)
    requires
        all_committed(initial, amounts),
    ensures
        0 <= total(amounts) <= initial,
        after_commits(initial, amounts) == initial - total(amounts),
    decreases amounts.len(),
{
    if amounts.len() > 0 {
        let n = amounts.len() - 1;
        let prefix = amounts.drop_last();
        assert forall|k: int| 0 <= k < prefix.len() implies prefix[k] <= after_commits(
            initial,
            #[trigger] prefix.take(k),
        ) by {
            assert(prefix.take(k) =~= amounts.take(k));
            assert(amounts[k] <= after_commits(initial, amounts.take(k)));
        }
        lemma_balance_accounting(initial, prefix);
        assert(amounts.take(n) =~= prefix);
        assert(amounts[n] <= after_commits(initial, amounts.take(n)));
    }
}

/// A granted token request is, for the cooldowns, a granted event of the
/// receiver at the request's time.
pub proof fn lemma_token_request_event(
    pre: Contract,
    post: Contract,
    env: CallEnv,
    token: Seq<char>,
    receiver: Seq<char>,
    amount: u128,
    r: Result<Option<Chain>, CallError>,
)
    requires
        Contract::token_request(pre, post, env, token, receiver, amount, r),
        r matches Ok(Some(_)),
    ensures
        ({
            let now = env.block_timestamp_ms;
            let events = seq![CooldownEvent::Record { subject: receiver, now }];
            &&& !too_soon(replay(pre.receivers(), events.take(0), pre.gap()), receiver, now, pre.gap())
            &&& post.receivers() == replay(pre.receivers(), events, pre.gap())
        }),
{
    let now = env.block_timestamp_ms;
    let events = seq![CooldownEvent::Record { subject: receiver, now }];
    assert(events.take(0) =~= Seq::<CooldownEvent>::empty());
    assert(events.drop_last() =~= Seq::<CooldownEvent>::empty());
}

/// A deny-listed receiver's token request is refused before anything changes.
pub proof fn lemma_denied_token_request(
    pre: Contract,
    post: Contract,
    env: CallEnv,
    token: Seq<char>,
    receiver: Seq<char>,
    amount: u128,
    r: Result<Option<Chain>, CallError>,
)
    requires
        Contract::token_request(pre, post, env, token, receiver, amount, r),
        pre.denied().contains(receiver),
    ensures
        r == Err::<Option<Chain>, CallError>(CallError::Access(AccessError::Denied)),
        post == pre,
{
}

} // verus!
