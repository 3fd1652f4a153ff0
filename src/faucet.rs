//! The token faucet: hands out native currency and listed fungible tokens to
//! requesters, under a per-receiver cooldown, a per-request allowance and a
//! deny-list.

use vstd::prelude::*;
use vstd::string::*;
use crate::access::{authorize, id_set, AccountSet, Capability};
use crate::chain::{single_step, Chain, Method, RemoteAction};
use crate::cooldown::{pruned, replay, too_soon, CooldownEvent, RateLimiter};
use crate::env::{bumped, AccessError, CallEnv, CallError, RateLimitError, ValidationError};
use crate::registry::{map_of, Registry};
use crate::validate::{regex_compiles, regex_finds, regex_is_match};

pub mod tokens;

use tokens::FTconfig;

verus! {

/// Receivers of native currency must be plain `.testnet` accounts.
pub const RECEIVER_PATTERN: &'static str = r"^([A-Za-z\d]+[\-_])*[A-Za-z\d]+\.testnet$";

/// Gas for asking the vault for funds, in teragas.
pub const VAULT_REQUEST_GAS_TGAS: u64 = 5;

/// Default vault account.
pub const VAULT_ID: &'static str = "vault.nonofficial.testnet";

/// Default balance below which the faucet asks the vault for more: ten
/// thousand NEAR, in yoctoNEAR.
pub const MIN_BALANCE_THRESHOLD: u128 = 10_000_000_000_000_000_000_000_000_000;

/// Default largest native request: ten NEAR, in yoctoNEAR.
pub const REQUEST_ALLOWANCE: u128 = 10_000_000_000_000_000_000_000_000;

/// Default gap between two requests for one receiver: one hour, in milliseconds.
pub const REQUEST_GAP_MS: u64 = 3_600_000;

/// Whether `receiver` has the form of a `.testnet` account.
pub open spec fn receiver_pattern_ok(receiver: Seq<char>) -> bool {
    regex_compiles(RECEIVER_PATTERN@) && regex_finds(RECEIVER_PATTERN@, receiver)
}

/// The faucet's balance once `amount` has left it, never below zero.
pub open spec fn balance_after(balance: u128, amount: u128) -> u128 {
    if amount <= balance {
        (balance - amount) as u128
    } else {
        0
    }
}

/// `c` sends `amount` of native currency to `to`.
pub open spec fn is_transfer_chain(c: Chain, to: Seq<char>, amount: u128) -> bool {
    &&& c.steps@.len() == 1
    &&& c.steps@[0].receiver_id@ == to
    &&& c.steps@[0].actions@ == seq![RemoteAction::Transfer { amount }]
    &&& c.continuation is None
}

/// `c` asks the vault `vault` for funds.
pub open spec fn is_vault_request_chain(c: Chain, vault: Seq<char>) -> bool {
    &&& c.steps@.len() == 1
    &&& c.steps@[0].receiver_id@ == vault
    &&& c.steps@[0].actions@ == seq![
        RemoteAction::FunctionCall { method: Method::RequestFunds, deposit: 0, gas_tgas: VAULT_REQUEST_GAS_TGAS },
    ]
    &&& c.continuation is None
}

/// Counters that the faucet reports.
#[derive(Debug, Clone, Copy, PartialEq, Eq, Structural)]
pub struct Stats {
    pub successful_requests: u64,
    pub ft_contracts_listed: u64,
}

/// The faucet's state as plain values, for storage.
pub struct State {
    pub recent_receivers: Vec<(String, u64)>,
    pub successful_requests: u64,
    pub blacklist: Vec<String>,
    pub factory_list: Vec<String>,
    pub ft_faucet: Vec<(String, FTconfig)>,
    pub vault_contract_id: String,
    pub min_balance_threshold: u128,
    pub request_allowance: u128,
    pub request_gap_required: u64,
}

/// Faucet state.
pub struct Contract {
    recent_receivers: RateLimiter,
    successful_requests: u64,
    blacklist: AccountSet,
    factory_list: AccountSet,
    ft_faucet: Registry<FTconfig>,
    vault_contract_id: String,
    min_balance_threshold: u128,
    request_allowance: u128,
    request_gap_required: u64,
}

impl Contract {
    pub closed spec fn wf(&self) -> bool {
        &&& self.recent_receivers.wf()
        &&& self.blacklist.wf()
        &&& self.factory_list.wf()
        &&& self.ft_faucet.wf()
    }

    /// Last request time of each receiver still under cooldown.
    pub closed spec fn receivers(&self) -> Map<Seq<char>, u64> {
        self.recent_receivers@
    }

    /// Number of completed requests.
    pub closed spec fn requests(&self) -> u64 {
        self.successful_requests
    }

    /// The deny-list.
    pub closed spec fn denied(&self) -> Set<Seq<char>> {
        self.blacklist@
    }

    /// Factories whose tokens may list themselves directly.
    pub closed spec fn factories(&self) -> Set<Seq<char>> {
        self.factory_list@
    }

    /// Listed tokens by token account.
    pub closed spec fn tokens(&self) -> Map<Seq<char>, FTconfig> {
        self.ft_faucet@
    }

    pub closed spec fn vault_id(&self) -> Seq<char> {
        self.vault_contract_id@
    }

    pub closed spec fn threshold(&self) -> u128 {
        self.min_balance_threshold
    }

    pub closed spec fn allowance(&self) -> u128 {
        self.request_allowance
    }

    pub closed spec fn gap(&self) -> u64 {
        self.request_gap_required
    }

    /// The vault, the balance threshold, the native allowance and the
    /// cooldown gap are as in `other`.
    pub open spec fn same_limits(&self, other: &Contract) -> bool {
        &&& self.vault_id() == other.vault_id()
        &&& self.threshold() == other.threshold()
        &&& self.allowance() == other.allowance()
        &&& self.gap() == other.gap()
    }

    /// Everything but the cooldowns and the request counter is as in `other`.
    pub open spec fn same_settings(&self, other: &Contract) -> bool {
        &&& self.denied() == other.denied()
        &&& self.factories() == other.factories()
        &&& self.tokens() == other.tokens()
        &&& self.same_limits(other)
    }

    /// An empty faucet with the default vault, threshold, allowance and gap.
    pub fn default() -> (r: Contract)
        ensures
            r.wf(),
            r.receivers() == Map::<Seq<char>, u64>::empty(),
            r.requests() == 0,
            r.denied() == Set::<Seq<char>>::empty(),
            r.factories() == Set::<Seq<char>>::empty(),
            r.tokens() == Map::<Seq<char>, FTconfig>::empty(),
            r.vault_id() == VAULT_ID@,
            r.threshold() == MIN_BALANCE_THRESHOLD,
            r.allowance() == REQUEST_ALLOWANCE,
            r.gap() == REQUEST_GAP_MS,
    {
        Contract {
            recent_receivers: RateLimiter::new(),
            successful_requests: 0,
            blacklist: AccountSet::new(),
            factory_list: AccountSet::new(),
            ft_faucet: Registry::new(),
            vault_contract_id: String::from_str(VAULT_ID),
            min_balance_threshold: MIN_BALANCE_THRESHOLD,
            request_allowance: REQUEST_ALLOWANCE,
            request_gap_required: REQUEST_GAP_MS,
        }
    }

    /// The faucet that `state` describes.
    pub fn from_state(state: State) -> (r: Contract)
        ensures
            r.wf(),
            r.receivers() == map_of(state.recent_receivers@),
            r.requests() == state.successful_requests,
            r.denied() == id_set(state.blacklist@),
            r.factories() == id_set(state.factory_list@),
            r.tokens() == map_of(state.ft_faucet@),
            r.vault_id() == state.vault_contract_id@,
            r.threshold() == state.min_balance_threshold,
            r.allowance() == state.request_allowance,
            r.gap() == state.request_gap_required,
    {
        Contract {
            recent_receivers: RateLimiter::from_entries(state.recent_receivers),
            successful_requests: state.successful_requests,
            blacklist: AccountSet::from_members(state.blacklist),
            factory_list: AccountSet::from_members(state.factory_list),
            ft_faucet: Registry::from_entries(state.ft_faucet),
            vault_contract_id: state.vault_contract_id,
            min_balance_threshold: state.min_balance_threshold,
            request_allowance: state.request_allowance,
            request_gap_required: state.request_gap_required,
        }
    }

    /// The faucet's state as plain values.
    pub fn into_state(self) -> (r: State)
        requires
            self.wf(),
        ensures
            map_of(r.recent_receivers@) == self.receivers(),
            r.successful_requests == self.requests(),
            id_set(r.blacklist@) == self.denied(),
            id_set(r.factory_list@) == self.factories(),
            map_of(r.ft_faucet@) == self.tokens(),
            r.vault_contract_id@ == self.vault_id(),
            r.min_balance_threshold == self.threshold(),
            r.request_allowance == self.allowance(),
            r.request_gap_required == self.gap(),
    {
        State {
            recent_receivers: self.recent_receivers.into_entries(),
            successful_requests: self.successful_requests,
            blacklist: self.blacklist.into_members(),
            factory_list: self.factory_list.into_members(),
            ft_faucet: self.ft_faucet.into_entries(),
            vault_contract_id: self.vault_contract_id,
            min_balance_threshold: self.min_balance_threshold,
            request_allowance: self.request_allowance,
            request_gap_required: self.request_gap_required,
        }
    }

    /// What a request of `amount` for `receiver` does to the faucet `pre`,
    /// given whether the receiver has the required form.
    pub open spec fn native_request(
        pre: Contract,
        post: Contract,
        env: CallEnv,
        receiver: Seq<char>,
        amount: u128,
        well_formed: bool,
        r: Result<Vec<Chain>, CallError>,
    ) -> bool {
        if pre.denied().contains(receiver) {
            r == Err::<Vec<Chain>, CallError>(CallError::Access(AccessError::Denied)) && post == pre
        } else if amount > pre.allowance() {
            r == Err::<Vec<Chain>, CallError>(CallError::Validation(ValidationError::OverAllowance))
                && post == pre
        } else if !well_formed {
            r == Err::<Vec<Chain>, CallError>(CallError::Validation(ValidationError::InvalidAccountId))
                && post == pre
        } else if too_soon(pre.receivers(), receiver, env.block_timestamp_ms, pre.gap()) {
            r == Err::<Vec<Chain>, CallError>(CallError::RateLimit(RateLimitError::TooSoon)) && post
                == pre
        } else {
            &&& post.same_settings(&pre)
            &&& post.receivers() == pruned(pre.receivers(), env.block_timestamp_ms, pre.gap()).insert(
                receiver,
                env.block_timestamp_ms,
            )
            &&& post.requests() == bumped(pre.requests())
            &&& match r {
                Ok(chains) => {
                    &&& chains@.len() == (if balance_after(env.account_balance, amount) < pre.threshold() {
                        2int
                    } else {
                        1int
                    })
                    &&& is_transfer_chain(chains@[0], receiver, amount)
                    &&& chains@.len() == 2 ==> is_vault_request_chain(chains@[1], pre.vault_id())
                },
                Err(_) => false,
            }
        }
    }

    /// Sends `request_amount` of native currency to `receiver_id`, given
    /// whether the receiver has the form of a `.testnet` account. The
    /// returned chains are independent: the transfer, and a request to the
    /// vault when the faucet's balance, less the amount sent, is below its
    /// threshold.
    pub fn request_near_with(
        &mut self,
        env: &CallEnv,
        receiver_id: String,
        request_amount: u128,
        receiver_well_formed: bool,
    ) -> (r: Result<Vec<Chain>, CallError>)
        requires
            old(self).wf(),
        ensures
            final(self).wf(),
            Contract::native_request(
                *old(self),
                *final(self),
                *env,
                receiver_id@,
                request_amount,
                receiver_well_formed,
                r,
            ),
    {
        if let Err(e) = authorize(&receiver_id, Capability::NotDenied, &env.current_account_id, &self.blacklist) {
            return Err(CallError::Access(e));
        }
        if request_amount > self.request_allowance {
            return Err(CallError::Validation(ValidationError::OverAllowance));
        }
        if !receiver_well_formed {
            return Err(CallError::Validation(ValidationError::InvalidAccountId));
        }
        let now = env.block_timestamp_ms;
        if self.recent_receivers.is_too_soon(&receiver_id, now, self.request_gap_required) {
            return Err(CallError::RateLimit(RateLimitError::TooSoon));
        }
        self.recent_receivers.prune(now, self.request_gap_required);
        let ghost after_prune = self.recent_receivers@;
        assert(!too_soon(after_prune, receiver_id@, now, self.request_gap_required));
        let recorded = self.recent_receivers.check_and_record(receiver_id.clone(), now, self.request_gap_required);
        assert(recorded is Ok);
        if self.successful_requests < u64::MAX {
            self.successful_requests = self.successful_requests + 1;
        }
        let mut chains: Vec<Chain> = Vec::new();
        chains.push(single_step(receiver_id, RemoteAction::Transfer { amount: request_amount }));
        let remaining = if request_amount <= env.account_balance {
            env.account_balance - request_amount
        } else {
            0
        };
        if remaining < self.min_balance_threshold {
            chains.push(
                single_step(
                    self.vault_contract_id.clone(),
                    RemoteAction::FunctionCall {
                        method: Method::RequestFunds,
                        deposit: 0,
                        gas_tgas: VAULT_REQUEST_GAS_TGAS,
                    },
                ),
            );
        }
        Ok(chains)
    }

    /// Sends `request_amount` of native currency to `receiver_id`: refused
    /// for a deny-listed receiver, above the allowance, for a receiver that
    /// is not a `.testnet` account, or within the receiver's cooldown.
    pub fn request_near(&mut self, env: &CallEnv, receiver_id: String, request_amount: u128) -> (r: Result<
        Vec<Chain>,
        CallError,
    >)
        requires
            old(self).wf(),
        ensures
            final(self).wf(),
            Contract::native_request(
                *old(self),
                *final(self),
                *env,
                receiver_id@,
                request_amount,
                receiver_pattern_ok(receiver_id@),
                r,
            ),
    {
        let well_formed = match regex_is_match(RECEIVER_PATTERN, receiver_id.as_str()) {
            Some(b) => b,
            None => false,
        };
        self.request_near_with(env, receiver_id, request_amount, well_formed)
    }

    /// Forgets every cooldown. Only the faucet itself may call this.
    pub fn clear_recent_receivers(&mut self, env: &CallEnv) -> (r: Result<(), CallError>)
        requires
            old(self).wf(),
        ensures
            final(self).wf(),
            env.predecessor_account_id@ != env.current_account_id@ ==> r == Err::<(), CallError>(
                CallError::Access(AccessError::NotSelf),
            ) && *final(self) == *old(self),
            env.predecessor_account_id@ == env.current_account_id@ ==> r is Ok && final(self).same_settings(
                &*old(self),
            ) && final(self).requests() == old(self).requests() && final(self).receivers() == Map::<
                Seq<char>,
                u64,
            >::empty(),
    {
        if let Err(e) = authorize(
            &env.predecessor_account_id,
            Capability::SelfOnly,
            &env.current_account_id,
            &self.blacklist,
        ) {
            return Err(CallError::Access(e));
        }
        self.recent_receivers.clear();
        Ok(())
    }

    /// Puts `account_id` on the deny-list. Only the faucet itself may call this.
    pub fn add_to_blacklist(&mut self, env: &CallEnv, account_id: String) -> (r: Result<(), CallError>)
        requires
            old(self).wf(),
        ensures
            final(self).wf(),
            final(self).same_limits(&*old(self)),
            final(self).factories() == old(self).factories(),
            env.predecessor_account_id@ != env.current_account_id@ ==> r == Err::<(), CallError>(
                CallError::Access(AccessError::NotSelf),
            ) && *final(self) == *old(self),
            env.predecessor_account_id@ == env.current_account_id@ ==> r is Ok && final(self).denied()
                == old(self).denied().insert(account_id@) && final(self).receivers() == old(self).receivers()
                && final(self).requests() == old(self).requests() && final(self).tokens() == old(self).tokens(),
    {
        if let Err(e) = authorize(
            &env.predecessor_account_id,
            Capability::SelfOnly,
            &env.current_account_id,
            &self.blacklist,
        ) {
            return Err(CallError::Access(e));
        }
        self.blacklist.insert(account_id);
        Ok(())
    }

    /// Puts every account of `account_ids` on the deny-list. Only the faucet
    /// itself may call this.
    pub fn batch_add_to_blacklist(&mut self, env: &CallEnv, account_ids: Vec<String>) -> (r: Result<
        (),
        CallError,
    >)
        requires
            old(self).wf(),
        ensures
            final(self).wf(),
            final(self).same_limits(&*old(self)),
            final(self).factories() == old(self).factories(),
            env.predecessor_account_id@ != env.current_account_id@ ==> r == Err::<(), CallError>(
                CallError::Access(AccessError::NotSelf),
            ) && *final(self) == *old(self),
            env.predecessor_account_id@ == env.current_account_id@ ==> r is Ok && final(self).denied()
                == old(self).denied() + id_set(account_ids@)
                && final(self).receivers() == old(self).receivers() && final(self).requests() == old(self).requests() && final(self).tokens() == old(self).tokens(),
    {
        if let Err(e) = authorize(
            &env.predecessor_account_id,
            Capability::SelfOnly,
            &env.current_account_id,
            &self.blacklist,
        ) {
            return Err(CallError::Access(e));
        }
        self.blacklist.insert_all(&account_ids);
        Ok(())
    }

    /// Takes `account_id` off the deny-list. Only the faucet itself may call this.
    pub fn remove_from_blacklist(&mut self, env: &CallEnv, account_id: String) -> (r: Result<(), CallError>)
        requires
            old(self).wf(),
        ensures
            final(self).wf(),
            final(self).same_limits(&*old(self)),
            final(self).factories() == old(self).factories(),
            env.predecessor_account_id@ != env.current_account_id@ ==> r == Err::<(), CallError>(
                CallError::Access(AccessError::NotSelf),
            ) && *final(self) == *old(self),
            env.predecessor_account_id@ == env.current_account_id@ ==> r is Ok && final(self).denied()
                == old(self).denied().remove(account_id@) && final(self).receivers() == old(self).receivers()
                && final(self).requests() == old(self).requests() && final(self).tokens() == old(self).tokens(),
    {
        if let Err(e) = authorize(
            &env.predecessor_account_id,
            Capability::SelfOnly,
            &env.current_account_id,
            &self.blacklist,
        ) {
            return Err(CallError::Access(e));
        }
        self.blacklist.remove(&account_id);
        Ok(())
    }

    /// Whether `account_id` is on the deny-list.
    pub fn is_blacklisted(&self, account_id: &String) -> (r: bool)
        requires
            self.wf(),
        ensures
            r == self.denied().contains(account_id@),
    {
        self.blacklist.contains(account_id)
    }

    /// Time of `receiver_id`'s last request still under cooldown.
    pub fn last_request_ms(&self, receiver_id: &String) -> (r: Option<u64>)
        requires
            self.wf(),
        ensures
            r == (if self.receivers().contains_key(receiver_id@) {
                Some(self.receivers()[receiver_id@])
            } else {
                None::<u64>
            }),
    {
        self.recent_receivers.last_event_ms(receiver_id)
    }

    /// The request counter and the number of listed tokens.
    pub fn get_stats(&self) -> (r: Stats)
        requires
            self.wf(),
        ensures
            self.tokens().dom().finite(),
            r.successful_requests == self.requests(),
            r.ft_contracts_listed as int == self.tokens().dom().len(),
    {
        proof {
            self.ft_faucet.lemma_len();
        }
        let n = self.ft_faucet.len();
        Stats { successful_requests: self.successful_requests, ft_contracts_listed: n as u64 }
    }
}

/// A granted request for native currency is, for the cooldowns, a prune at
/// the request's time followed by a granted event of the receiver.
pub proof fn lemma_native_request_events(
    pre: Contract,
    post: Contract,
    env: CallEnv,
    receiver: Seq<char>,
    amount: u128,
    well_formed: bool,
    r: Result<Vec<Chain>, CallError>,
)
    requires
        Contract::native_request(pre, post, env, receiver, amount, well_formed, r),
        r is Ok,
    ensures
        ({
            let now = env.block_timestamp_ms;
            let events = seq![CooldownEvent::Prune { now }, CooldownEvent::Record { subject: receiver, now }];
            &&& !too_soon(replay(pre.receivers(), events.take(1), pre.gap()), receiver, now, pre.gap())
            &&& post.receivers() == replay(pre.receivers(), events, pre.gap())
        }),
{
    let now = env.block_timestamp_ms;
    let gap = pre.gap();
    let events = seq![CooldownEvent::Prune { now }, CooldownEvent::Record { subject: receiver, now }];
    assert(events.take(1).drop_last() =~= Seq::<CooldownEvent>::empty());
    assert(events.drop_last() =~= events.take(1));
    assert(events.take(1).last() == CooldownEvent::Prune { now });
    assert(replay(pre.receivers(), Seq::<CooldownEvent>::empty(), gap) == pre.receivers());
    assert(events.take(1).len() == 1);
    assert(replay(pre.receivers(), events.take(1), gap) == pruned(pre.receivers(), now, gap));
}

/// A deny-listed receiver's request for native currency is refused before
/// anything changes.
pub proof fn lemma_denied_native_request(
    pre: Contract,
    post: Contract,
    env: CallEnv,
    receiver: Seq<char>,
    amount: u128,
    well_formed: bool,
    r: Result<Vec<Chain>, CallError>,
)
    requires
        Contract::native_request(pre, post, env, receiver, amount, well_formed, r),
        pre.denied().contains(receiver),
    ensures
        r == Err::<Vec<Chain>, CallError>(CallError::Access(AccessError::Denied)),
        post == pre,
{
}

} // verus!
