//! What a call learns from its host, and how a call is refused.

use vstd::prelude::*;

verus! {

/// The host's view of one incoming call.
#[derive(Debug)]
pub struct CallEnv {
    /// The service that runs the call.
    pub current_account_id: String,
    /// The account that made the call (for a continuation: the service itself).
    pub predecessor_account_id: String,
    /// The account that signed the transaction the call belongs to.
    pub signer_account_id: String,
    /// Block time in milliseconds.
    pub block_timestamp_ms: u64,
    /// The service's own balance, in yoctoNEAR.
    pub account_balance: u128,
}

/// An unauthorized caller.
#[derive(Debug, Clone, Copy, PartialEq, Eq, Structural)]
pub enum AccessError {
    /// The entry point may only be called by the service itself.
    NotSelf,
    /// The caller is not in the privileged set the entry point requires.
    NotPrivileged,
    /// The caller or subject is on the deny-list.
    Denied,
}

/// A cooldown that has not elapsed.
#[derive(Debug, Clone, Copy, PartialEq, Eq, Structural)]
pub enum RateLimitError {
    TooSoon,
}

/// Malformed or out-of-policy arguments.
#[derive(Debug, Clone, Copy, PartialEq, Eq, Structural)]
pub enum ValidationError {
    /// The requested amount exceeds the per-request allowance.
    OverAllowance,
    /// The requested amount exceeds the balance available for it.
    OverBalance,
    /// An account identifier does not have the required form.
    InvalidAccountId,
    /// The token is not listed.
    NotListed,
    /// The token is already listed.
    AlreadyListed,
    /// A destructive action was called without confirmation.
    NotConfirmed,
    /// The request allowance must stay below the initial balance.
    AllowanceNotBelowBalance,
    /// A transfer message could not be read.
    MalformedMessage,
    /// The service has already been initialized.
    AlreadyInitialized,
    /// Token metadata is not well formed.
    InvalidMetadata,
    /// A balance would leave the range of its type.
    BalanceOverflow,
}

/// Why a call was refused before any state change or remote dispatch.
#[derive(Debug, Clone, Copy, PartialEq, Eq, Structural)]
pub enum CallError {
    Access(AccessError),
    RateLimit(RateLimitError),
    Validation(ValidationError),
}

/// `n + 1`, held at the largest `u64`.
pub open spec fn bumped(n: u64) -> u64 {
    if n < u64::MAX {
        (n + 1) as u64
    } else {
        n
    }
}

/// A remote step reported failure.
#[derive(Debug, Clone, Copy, PartialEq, Eq, Structural)]
pub struct RemoteStepFailure;

} // verus!
