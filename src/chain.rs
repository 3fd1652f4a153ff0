//! Remote work as data: the steps a workflow dispatches, in order, and the
//! local continuation that runs once their outcome is known.

use vstd::prelude::*;
use crate::metadata::TokenMetadata;

verus! {

/// An entry point of another service, with its arguments.
#[derive(Debug)]
pub enum Method {
    /// Initialize a freshly deployed token service.
    FtNew { owner_id: String, total_supply: u128, metadata: TokenMetadata },
    /// Ask a token service to delete its own account.
    FtDeleteAccount,
    /// Ask a token service for its metadata.
    FtMetadata,
    /// Register an account with a token ledger.
    StorageDeposit { account_id: String },
    /// Move tokens on a token ledger.
    FtTransfer { receiver_id: String, amount: u128 },
    /// Ask the vault for more funds.
    RequestFunds,
    /// List the calling token on the faucet.
    FtListFromFactory { ft_request_allowance: u128, ft_initial_balance: u128, ft_metadata: TokenMetadata },
    /// Remove the calling token from the faucet.
    FtRemoveToken { confirm: bool },
}

/// One operation dispatched to a receiving account.
#[derive(Debug)]
pub enum RemoteAction {
    /// Create the receiving account.
    CreateAccount,
    /// Give the transaction signer's key full access to the receiving account.
    AddSignerFullAccessKey,
    /// Send native currency, in yoctoNEAR.
    Transfer { amount: u128 },
    /// Install the token service's code image.
    DeployTokenCode,
    /// Delete the receiving account, sending what is left to the beneficiary.
    DeleteAccount { beneficiary_id: String },
    /// Call an entry point, attaching a deposit in yoctoNEAR and gas in
    /// teragas (zero leaves the gas to the host).
    FunctionCall { method: Method, deposit: u128, gas_tgas: u64 },
}

/// Operations sent to one account as one batch: they succeed or fail
/// together.
#[derive(Debug)]
pub struct RemoteStep {
    pub receiver_id: String,
    pub actions: Vec<RemoteAction>,
}

impl RemoteStep {
    /// A step of the one operation `action`.
    pub fn single(receiver_id: String, action: RemoteAction) -> (r: RemoteStep)
        ensures
            r.receiver_id == receiver_id,
            r.actions@ == seq![action],
    {
        let mut actions: Vec<RemoteAction> = Vec::new();
        actions.push(action);
        proof {
            assert(actions@ =~= seq![action]);
        }
        RemoteStep { receiver_id, actions }
    }
}

/// The local step that commits a workflow once its remote steps are done.
#[derive(Debug)]
pub enum Continuation {
    /// Record a deployed token service.
    SaveContract { ft_contract_id: String },
    /// Forget a deployed token service.
    RemoveContract { ft_contract_id: String },
    /// List a token with the metadata that the last step returned.
    ListToken { ft_contract_id: String, ft_request_allowance: u128, ft_available_balance: u128 },
    /// Account for tokens handed out.
    UpdateFtBalance { ft_contract_id: String, amount: u128 },
}

/// Remote steps to run in order, and what to run when they are done.
#[derive(Debug)]
pub struct Chain {
    pub steps: Vec<RemoteStep>,
    pub continuation: Option<Continuation>,
}

/// A chain of one remote step, without continuation.
pub fn single_step(receiver_id: String, action: RemoteAction) -> (r: Chain)
    ensures
        r.steps@.len() == 1,
        r.steps@[0].receiver_id == receiver_id,
        r.steps@[0].actions@ == seq![action],
        r.continuation is None,
{
    let mut steps: Vec<RemoteStep> = Vec::new();
    steps.push(RemoteStep::single(receiver_id, action));
    Chain { steps, continuation: None }
}

/// Progress of a dispatched chain.
pub struct ChainRun {
    chain: Chain,
    completed: usize,
    failed: bool,
}

impl ChainRun {
    /// The chain being run.
    pub closed spec fn chain(&self) -> Chain {
        self.chain
    }

    /// Number of steps that reported success.
    pub closed spec fn completed(&self) -> nat {
        self.completed as nat
    }

    /// Whether a step reported failure.
    pub closed spec fn failed(&self) -> bool {
        self.failed
    }

    pub closed spec fn wf(&self) -> bool {
        self.completed <= self.chain.steps@.len()
    }

    /// Whether a step waits for dispatch.
    pub open spec fn pending(&self) -> bool {
        !self.failed() && self.completed() < self.chain().steps@.len()
    }

    /// Begins running `chain`: nothing dispatched yet.
    pub fn start(chain: Chain) -> (r: ChainRun)
        ensures
            r.wf(),
            r.chain() == chain,
            r.completed() == 0,
            !r.failed(),
    {
        ChainRun { chain, completed: 0, failed: false }
    }

    /// The step to dispatch next: none once a step failed or all succeeded.
    pub fn next_step(&self) -> (r: Option<&RemoteStep>)
        requires
            self.wf(),
        ensures
            r is Some <==> self.pending(),
            r matches Some(s) ==> *s == self.chain().steps@[self.completed() as int],
    {
        if !self.failed && self.completed < self.chain.steps.len() {
            Some(&self.chain.steps[self.completed])
        } else {
            None
        }
    }

    /// Takes the outcome of the pending step. A failure abandons the rest of
    /// the chain.
    pub fn report(&mut self, success: bool)
        requires
            old(self).wf(),
            old(self).pending(),
        ensures
            final(self).wf(),
            final(self).chain() == old(self).chain(),
            success ==> final(self).completed() == old(self).completed() + 1 && !final(self).failed(),
            !success ==> final(self).completed() == old(self).completed() && final(self).failed(),
    {
        if success {
            let n = self.chain.steps.len();
            assert(self.completed < n);
            self.completed = self.completed + 1;
        } else {
            self.failed = true;
        }
    }

    /// What the continuation receives: nothing while a step is pending,
    /// success once every step succeeded, failure once one failed.
    pub fn outcome(&self) -> (r: Option<bool>)
        requires
            self.wf(),
        ensures
            self.pending() ==> r is None,
            !self.pending() ==> r == Some(!self.failed()),
            r == Some(true) ==> self.completed() == self.chain().steps@.len(),
    {
        if self.failed {
            Some(false)
        } else if self.completed < self.chain.steps.len() {
            None
        } else {
            Some(true)
        }
    }

    /// The continuation to run once the outcome is known.
    pub fn continuation(&self) -> (r: &Option<Continuation>)
        ensures
            *r == self.chain().continuation,
    {
        &self.chain.continuation
    }
}

} // verus!
