//! The funding vault: hands a fixed amount of native currency to allow-listed
//! callers, at most once per cooldown.

use vstd::prelude::*;
use crate::access::{authorize, id_set, AccountSet, Capability};
use crate::chain::{single_step, Chain, RemoteAction};
use crate::env::{CallEnv, CallError, RateLimitError};

verus! {

/// Minimum time between two payouts: one day, in milliseconds.
pub const REQUEST_COOLDOWN_MS: u64 = 86_400_000;

/// Amount of one payout: ten thousand NEAR, in yoctoNEAR.
pub const AMOUNT_TO_BE_SENT: u128 = 10_000_000_000_000_000_000_000_000_000;

/// Storage prefixes of the vault's persistent collections.
#[derive(Debug, Clone, Copy, PartialEq, Eq, Structural)]
pub enum StorageKeys {
    Whitelist,
}

/// The vault's state as plain values, for storage.
pub struct State {
    pub last_successful_call: u64,
    pub whitelist: Vec<String>,
}

/// Vault state.
pub struct Contract {
    last_successful_call: u64,
    whitelist: AccountSet,
}

/// Whether a payout at `now` comes at least the cooldown after the last one.
pub open spec fn cooldown_passed(last_ms: u64, now: u64) -> bool {
    (now as int) - (last_ms as int) >= REQUEST_COOLDOWN_MS as int
}

impl Contract {
    pub closed spec fn wf(&self) -> bool {
        self.whitelist.wf()
    }

    /// Time of the last payout.
    pub closed spec fn last_call(&self) -> u64 {
        self.last_successful_call
    }

    /// Accounts allowed to ask for funds.
    pub closed spec fn allowed(&self) -> Set<Seq<char>> {
        self.whitelist@
    }

    /// An empty allow-list, and no payout yet.
    pub fn default() -> (r: Contract)
        ensures
            r.wf(),
            r.last_call() == 0,
            r.allowed() == Set::<Seq<char>>::empty(),
    {
        Contract { last_successful_call: 0, whitelist: AccountSet::new() }
    }

    /// The vault that `state` describes.
    pub fn from_state(state: State) -> (r: Contract)
        ensures
            r.wf(),
            r.last_call() == state.last_successful_call,
            r.allowed() == id_set(state.whitelist@),
    {
        Contract {
            last_successful_call: state.last_successful_call,
            whitelist: AccountSet::from_members(state.whitelist),
        }
    }

    /// The vault's state as plain values.
    pub fn into_state(self) -> (r: State)
        requires
            self.wf(),
        ensures
            r.last_successful_call == self.last_call(),
            id_set(r.whitelist@) == self.allowed(),
    {
        State { last_successful_call: self.last_successful_call, whitelist: self.whitelist.into_members() }
    }

    /// Pays the fixed amount to the caller, who must be allow-listed, once the
    /// cooldown since the last payout has passed.
    pub fn request_funds(&mut self, env: &CallEnv) -> (r: Result<Chain, CallError>)
        requires
            old(self).wf(),
        ensures
            final(self).wf(),
            final(self).allowed() == old(self).allowed(),
            !old(self).allowed().contains(env.predecessor_account_id@) ==> r == Err::<Chain, CallError>(
                CallError::Access(crate::env::AccessError::NotPrivileged),
            ) && *final(self) == *old(self),
            old(self).allowed().contains(env.predecessor_account_id@) && !cooldown_passed(
                old(self).last_call(),
                env.block_timestamp_ms,
            ) ==> r == Err::<Chain, CallError>(CallError::RateLimit(RateLimitError::TooSoon))
                && *final(self) == *old(self),
            old(self).allowed().contains(env.predecessor_account_id@) && cooldown_passed(
                old(self).last_call(),
                env.block_timestamp_ms,
            ) ==> final(self).last_call() == env.block_timestamp_ms && match r {
                Ok(c) => c.steps@.len() == 1 && c.steps@[0].receiver_id == env.predecessor_account_id
                    && c.steps@[0].actions@ == seq![RemoteAction::Transfer { amount: AMOUNT_TO_BE_SENT }]
                    && c.continuation is None,
                Err(_) => false,
            },
    {
        match authorize(
            &env.predecessor_account_id,
            Capability::Privileged,
            &env.current_account_id,
            &self.whitelist,
        ) {
            Err(e) => {
                return Err(CallError::Access(e));
            },
            Ok(()) => {},
        }
        let now = env.block_timestamp_ms;
        if !(now >= self.last_successful_call && now - self.last_successful_call >= REQUEST_COOLDOWN_MS) {
            return Err(CallError::RateLimit(RateLimitError::TooSoon));
        }
        self.last_successful_call = now;
        Ok(single_step(
            env.predecessor_account_id.clone(),
            RemoteAction::Transfer { amount: AMOUNT_TO_BE_SENT },
        ))
    }

    /// Allows `account_id` to ask for funds. Only the vault itself may call this.
    pub fn add_to_whitelist(&mut self, env: &CallEnv, account_id: String) -> (r: Result<(), CallError>)
        requires
            old(self).wf(),
        ensures
            final(self).wf(),
            final(self).last_call() == old(self).last_call(),
            env.predecessor_account_id@ != env.current_account_id@ ==> r == Err::<(), CallError>(
                CallError::Access(crate::env::AccessError::NotSelf),
            ) && *final(self) == *old(self),
            env.predecessor_account_id@ == env.current_account_id@ ==> r is Ok && final(self).allowed()
                == old(self).allowed().insert(account_id@),
    {
        match authorize(
            &env.predecessor_account_id,
            Capability::SelfOnly,
            &env.current_account_id,
            &self.whitelist,
        ) {
            Err(e) => Err(CallError::Access(e)),
            Ok(()) => {
                self.whitelist.insert(account_id);
                Ok(())
            },
        }
    }

    /// Withdraws `account_id`'s permission. Only the vault itself may call this.
    pub fn remove_from_whitelist(&mut self, env: &CallEnv, account_id: String) -> (r: Result<(), CallError>)
        requires
            old(self).wf(),
        ensures
            final(self).wf(),
            final(self).last_call() == old(self).last_call(),
            env.predecessor_account_id@ != env.current_account_id@ ==> r == Err::<(), CallError>(
                CallError::Access(crate::env::AccessError::NotSelf),
            ) && *final(self) == *old(self),
            env.predecessor_account_id@ == env.current_account_id@ ==> r is Ok && final(self).allowed()
                == old(self).allowed().remove(account_id@),
    {
        match authorize(
            &env.predecessor_account_id,
            Capability::SelfOnly,
            &env.current_account_id,
            &self.whitelist,
        ) {
            Err(e) => Err(CallError::Access(e)),
            Ok(()) => {
                self.whitelist.remove(&account_id);
                Ok(())
            },
        }
    }

    /// Whether `account_id` may ask for funds.
    pub fn is_whitelisted(&self, account_id: &String) -> (r: bool)
        requires
            self.wf(),
        ensures
            r == self.allowed().contains(account_id@),
    {
        self.whitelist.contains(account_id)
    }

    /// Time of the last payout, in milliseconds.
    pub fn last_successful_call(&self) -> (r: u64)
        ensures
            r == self.last_call(),
    {
        self.last_successful_call
    }
}

} // verus!
