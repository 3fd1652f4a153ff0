//! The contract factory: provisions token services under its own account and
//! keeps the registry of those it deployed.

use vstd::prelude::*;
use vstd::string::*;
use crate::access::{authorize, id_set, AccountSet, Capability};
use crate::chain::{Chain, Continuation, Method, RemoteAction, RemoteStep};
use crate::env::{AccessError, CallEnv, CallError, RemoteStepFailure, ValidationError};
use crate::metadata::{TokenMetadata, TokenMetadataView};
use crate::validate::{account_id_is_valid, valid_account_id};

verus! {

/// Operating funds sent to a new token service: three NEAR, in yoctoNEAR.
pub const INITIAL_FUNDS: u128 = 3_000_000_000_000_000_000_000_000;

/// Gas for asking a token service to delete itself, in teragas.
pub const DELETE_GAS_TGAS: u64 = 5;

/// The identifier of the sub-account `prefix` of `parent`.
pub open spec fn sub_account_id(prefix: Seq<char>, parent: Seq<char>) -> Seq<char> {
    prefix + seq!['.'] + parent
}

/// `c` provisions the token service `id`: one batch creates and funds its
/// account and installs the token code, the next initializes it, then the
/// continuation records it.
pub open spec fn is_provision_chain(
    c: Chain,
    id: Seq<char>,
    owner_id: Seq<char>,
    total_supply: u128,
    metadata: TokenMetadataView,
) -> bool {
    &&& c.steps@.len() == 2
    &&& c.steps@[0].receiver_id@ == id
    &&& c.steps@[1].receiver_id@ == id
    &&& c.steps@[0].actions@ == seq![
        RemoteAction::CreateAccount,
        RemoteAction::AddSignerFullAccessKey,
        RemoteAction::Transfer { amount: INITIAL_FUNDS },
        RemoteAction::DeployTokenCode,
    ]
    &&& c.steps@[1].actions@.len() == 1
    &&& match c.steps@[1].actions@[0] {
        RemoteAction::FunctionCall { method: Method::FtNew { owner_id: o, total_supply: t, metadata: m }, deposit, gas_tgas } =>
            o@ == owner_id && t == total_supply && m@ == metadata && deposit == 0 && gas_tgas == 0,
        _ => false,
    }
    &&& match c.continuation {
        Some(Continuation::SaveContract { ft_contract_id }) => ft_contract_id@ == id,
        _ => false,
    }
}

/// `c` asks the token service `id` to delete itself, then forgets it.
pub open spec fn is_decommission_chain(c: Chain, id: Seq<char>) -> bool {
    &&& c.steps@.len() == 1
    &&& c.steps@[0].receiver_id@ == id
    &&& c.steps@[0].actions@ == seq![
        RemoteAction::FunctionCall { method: Method::FtDeleteAccount, deposit: 0, gas_tgas: DELETE_GAS_TGAS },
    ]
    &&& match c.continuation {
        Some(Continuation::RemoveContract { ft_contract_id }) => ft_contract_id@ == id,
        _ => false,
    }
}

/// The factory's state as plain values, for storage.
pub struct State {
    pub deployed_contracts: Vec<String>,
}

/// Factory state: the token services it has deployed.
pub struct Contract {
    deployed_contracts: AccountSet,
}

impl Contract {
    pub closed spec fn wf(&self) -> bool {
        self.deployed_contracts.wf()
    }

    /// Identifiers of the deployed token services.
    pub closed spec fn deployed(&self) -> Set<Seq<char>> {
        self.deployed_contracts@
    }

    /// A factory that has deployed nothing.
    pub fn default() -> (r: Contract)
        ensures
            r.wf(),
            r.deployed() == Set::<Seq<char>>::empty(),
    {
        Contract { deployed_contracts: AccountSet::new() }
    }

    /// The factory that `state` describes.
    pub fn from_state(state: State) -> (r: Contract)
        ensures
            r.wf(),
            r.deployed() == id_set(state.deployed_contracts@),
    {
        Contract { deployed_contracts: AccountSet::from_members(state.deployed_contracts) }
    }

    /// The factory's state as plain values.
    pub fn into_state(self) -> (r: State)
        requires
            self.wf(),
        ensures
            id_set(r.deployed_contracts@) == self.deployed(),
    {
        State { deployed_contracts: self.deployed_contracts.into_members() }
    }

    /// Starts provisioning the token service `desired_prefix.<factory>`.
    /// Only the factory itself may call this; the registry changes only when
    /// the chain's continuation reports success.
    pub fn create_contract(
        &mut self,
        env: &CallEnv,
        desired_prefix: String,
        owner_id: String,
        total_supply: u128,
        metadata: TokenMetadata,
    ) -> (r: Result<Chain, CallError>)
        requires
            old(self).wf(),
        ensures
            *final(self) == *old(self),
            env.predecessor_account_id@ != env.current_account_id@ ==> r == Err::<Chain, CallError>(
                CallError::Access(AccessError::NotSelf),
            ),
            env.predecessor_account_id@ == env.current_account_id@ && !valid_account_id(
                sub_account_id(desired_prefix@, env.current_account_id@),
            ) ==> r == Err::<Chain, CallError>(CallError::Validation(ValidationError::InvalidAccountId)),
            env.predecessor_account_id@ == env.current_account_id@ && valid_account_id(
                sub_account_id(desired_prefix@, env.current_account_id@),
            ) ==> match r {
                Ok(c) => is_provision_chain(
                    c,
                    sub_account_id(desired_prefix@, env.current_account_id@),
                    owner_id@,
                    total_supply,
                    metadata@,
                ),
                Err(_) => false,
            },
    {
        if let Err(e) = authorize(
            &env.predecessor_account_id,
            Capability::SelfOnly,
            &env.current_account_id,
            &self.deployed_contracts,
        ) {
            return Err(CallError::Access(e));
        }
        let mut id = desired_prefix;
        id.append(".");
        id.append(env.current_account_id.as_str());
        proof {
            reveal_strlit(".");
        }
        assert(id@ =~= sub_account_id(desired_prefix@, env.current_account_id@));
        if !account_id_is_valid(id.as_str()) {
            return Err(CallError::Validation(ValidationError::InvalidAccountId));
        }
        let mut setup: Vec<RemoteAction> = Vec::new();
        setup.push(RemoteAction::CreateAccount);
        setup.push(RemoteAction::AddSignerFullAccessKey);
        setup.push(RemoteAction::Transfer { amount: INITIAL_FUNDS });
        setup.push(RemoteAction::DeployTokenCode);
        assert(setup@ =~= seq![
            RemoteAction::CreateAccount,
            RemoteAction::AddSignerFullAccessKey,
            RemoteAction::Transfer { amount: INITIAL_FUNDS },
            RemoteAction::DeployTokenCode,
        ]);
        let mut steps: Vec<RemoteStep> = Vec::new();
        steps.push(RemoteStep { receiver_id: id.clone(), actions: setup });
        steps.push(
            RemoteStep::single(
                id.clone(),
                RemoteAction::FunctionCall {
                    method: Method::FtNew { owner_id, total_supply, metadata },
                    deposit: 0,
                    gas_tgas: 0,
                },
            ),
        );
        Ok(Chain { steps, continuation: Some(Continuation::SaveContract { ft_contract_id: id }) })
    }

    /// Records `ft_contract_id` as deployed. Only the factory itself may call this.
    pub fn add_contract(&mut self, env: &CallEnv, ft_contract_id: String) -> (r: Result<(), CallError>)
        requires
            old(self).wf(),
        ensures
            final(self).wf(),
            env.predecessor_account_id@ != env.current_account_id@ ==> r == Err::<(), CallError>(
                CallError::Access(AccessError::NotSelf),
            ) && *final(self) == *old(self),
            env.predecessor_account_id@ == env.current_account_id@ ==> r is Ok && final(self).deployed()
                == old(self).deployed().insert(ft_contract_id@),
    {
        if let Err(e) = authorize(
            &env.predecessor_account_id,
            Capability::SelfOnly,
            &env.current_account_id,
            &self.deployed_contracts,
        ) {
            return Err(CallError::Access(e));
        }
        self.deployed_contracts.insert(ft_contract_id);
        Ok(())
    }

    /// Forgets `ft_contract_id`. Only the factory itself may call this.
    pub fn remove_contract(&mut self, env: &CallEnv, ft_contract_id: String) -> (r: Result<(), CallError>)
        requires
            old(self).wf(),
        ensures
            final(self).wf(),
            env.predecessor_account_id@ != env.current_account_id@ ==> r == Err::<(), CallError>(
                CallError::Access(AccessError::NotSelf),
            ) && *final(self) == *old(self),
            env.predecessor_account_id@ == env.current_account_id@ ==> r is Ok && final(self).deployed()
                == old(self).deployed().remove(ft_contract_id@),
    {
        if let Err(e) = authorize(
            &env.predecessor_account_id,
            Capability::SelfOnly,
            &env.current_account_id,
            &self.deployed_contracts,
        ) {
            return Err(CallError::Access(e));
        }
        self.deployed_contracts.remove(&ft_contract_id);
        Ok(())
    }

    /// Starts decommissioning the token service `ft_contract_id`. Only the
    /// factory itself may call this; the registry changes only when the
    /// chain's continuation reports success.
    pub fn delete_contract_account(&mut self, env: &CallEnv, ft_contract_id: String) -> (r: Result<
        Chain,
        CallError,
    >)
        requires
            old(self).wf(),
        ensures
            *final(self) == *old(self),
            env.predecessor_account_id@ != env.current_account_id@ ==> r == Err::<Chain, CallError>(
                CallError::Access(AccessError::NotSelf),
            ),
            env.predecessor_account_id@ == env.current_account_id@ ==> match r {
                Ok(c) => is_decommission_chain(c, ft_contract_id@),
                Err(_) => false,
            },
    {
        if let Err(e) = authorize(
            &env.predecessor_account_id,
            Capability::SelfOnly,
            &env.current_account_id,
            &self.deployed_contracts,
        ) {
            return Err(CallError::Access(e));
        }
        let mut steps: Vec<RemoteStep> = Vec::new();
        steps.push(
            RemoteStep::single(
                ft_contract_id.clone(),
                RemoteAction::FunctionCall {
                    method: Method::FtDeleteAccount,
                    deposit: 0,
                    gas_tgas: DELETE_GAS_TGAS,
                },
            ),
        );
        Ok(Chain { steps, continuation: Some(Continuation::RemoveContract { ft_contract_id }) })
    }

    /// Number of deployed token services.
    pub fn num_contracts(&self) -> (n: u64)
        requires
            self.wf(),
        ensures
            self.deployed().finite(),
            n as int == self.deployed().len(),
    {
        let n = self.deployed_contracts.len();
        n as u64
    }

    /// Whether `ft_contract_id` is recorded as deployed.
    pub fn is_deployed(&self, ft_contract_id: &String) -> (r: bool)
        requires
            self.wf(),
        ensures
            r == self.deployed().contains(ft_contract_id@),
    {
        self.deployed_contracts.contains(ft_contract_id)
    }

    /// Continuation of provisioning: records the token service when every
    /// step succeeded. Only the factory itself may call this.
    pub fn save_contract_callback(
        &mut self,
        env: &CallEnv,
        ft_contract_id: String,
        call_result: Result<(), RemoteStepFailure>,
    ) -> (r: Result<(), CallError>)
        requires
            old(self).wf(),
        ensures
            final(self).wf(),
            env.predecessor_account_id@ != env.current_account_id@ ==> r == Err::<(), CallError>(
                CallError::Access(AccessError::NotSelf),
            ) && *final(self) == *old(self),
            env.predecessor_account_id@ == env.current_account_id@ ==> r is Ok && final(self).deployed()
                == (if call_result is Ok {
                old(self).deployed().insert(ft_contract_id@)
            } else {
                old(self).deployed()
            }),
    {
        if let Err(e) = authorize(
            &env.predecessor_account_id,
            Capability::SelfOnly,
            &env.current_account_id,
            &self.deployed_contracts,
        ) {
            return Err(CallError::Access(e));
        }
        if call_result.is_ok() {
            self.deployed_contracts.insert(ft_contract_id);
        }
        Ok(())
    }

    /// Continuation of decommissioning: forgets the token service when its
    /// deletion succeeded. Only the factory itself may call this.
    pub fn remove_contract_callback(
        &mut self,
        env: &CallEnv,
        ft_contract_id: String,
        call_result: Result<(), RemoteStepFailure>,
    ) -> (r: Result<(), CallError>)
        requires
            old(self).wf(),
        ensures
            final(self).wf(),
            env.predecessor_account_id@ != env.current_account_id@ ==> r == Err::<(), CallError>(
                CallError::Access(AccessError::NotSelf),
            ) && *final(self) == *old(self),
            env.predecessor_account_id@ == env.current_account_id@ ==> r is Ok && final(self).deployed()
                == (if call_result is Ok {
                old(self).deployed().remove(ft_contract_id@)
            } else {
                old(self).deployed()
            }),
    {
        if let Err(e) = authorize(
            &env.predecessor_account_id,
            Capability::SelfOnly,
            &env.current_account_id,
            &self.deployed_contracts,
        ) {
            return Err(CallError::Access(e));
        }
        if call_result.is_ok() {
            self.deployed_contracts.remove(&ft_contract_id);
        }
        Ok(())
    }
}

} // verus!
