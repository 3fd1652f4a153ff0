//! The fungible-token service: who moderates it, and the workflows that list
//! it on a faucet, take it off again, or delete it. Balances live in the
//! token ledger; this service tells the ledger what to do.

use vstd::prelude::*;
use vstd::string::*;
use crate::access::{authorize, id_set, AccountSet, Capability};
use crate::chain::{single_step, Chain, Method, RemoteAction};
use crate::env::{bumped, AccessError, CallEnv, CallError, ValidationError};
use crate::metadata::{metadata_valid, TokenMetadata, TokenMetadataView};

verus! {

/// Memo of the mint that creates the initial supply.
pub const INITIAL_MINT_MEMO: &'static str = "Initial tokens supply is minted";

/// Memo of the mint that funds a faucet.
pub const FAUCET_MINT_MEMO: &'static str = "Tokens minted for the faucet contract";

/// Gas for listing on a faucet, in teragas.
pub const LIST_ON_FAUCET_GAS_TGAS: u64 = 10;

/// Gas for delisting from a faucet, in teragas.
pub const REMOVE_FROM_FAUCET_GAS_TGAS: u64 = 5;

/// An operation on the token ledger.
#[derive(Debug)]
pub enum LedgerOp {
    /// Open a ledger account for `account_id`.
    RegisterAccount { account_id: String },
    /// Create `amount` new tokens on `account_id`'s ledger account.
    Mint { account_id: String, amount: u128, memo: String },
}

/// `ops` registers `account` and mints `amount` to it.
pub open spec fn is_register_and_mint(ops: Seq<LedgerOp>, account: Seq<char>, amount: u128, memo: Seq<char>) -> bool {
    &&& ops.len() == 2
    &&& match ops[0] {
        LedgerOp::RegisterAccount { account_id } => account_id@ == account,
        _ => false,
    }
    &&& match ops[1] {
        LedgerOp::Mint { account_id, amount: a, memo: m } => account_id@ == account && a == amount && m@ == memo,
        _ => false,
    }
}

/// `c` lists the token on the faucet `faucet` with the given allowance,
/// balance and metadata.
pub open spec fn is_faucet_listing_chain(
    c: Chain,
    faucet: Seq<char>,
    allowance: u128,
    initial_balance: u128,
    metadata: TokenMetadataView,
) -> bool {
    &&& c.steps@.len() == 1
    &&& c.steps@[0].receiver_id@ == faucet
    &&& c.steps@[0].actions@.len() == 1
    &&& match c.steps@[0].actions@[0] {
        RemoteAction::FunctionCall {
            method: Method::FtListFromFactory { ft_request_allowance, ft_initial_balance, ft_metadata },
            deposit,
            gas_tgas,
        } => ft_request_allowance == allowance && ft_initial_balance == initial_balance && ft_metadata@
            == metadata && deposit == 0 && gas_tgas == LIST_ON_FAUCET_GAS_TGAS,
        _ => false,
    }
    &&& c.continuation is None
}

/// The token service's state as plain values, for storage.
pub struct State {
    pub metadata: TokenMetadata,
    pub mod_list: Vec<String>,
    pub registered_accounts: u64,
}

/// Token service state.
pub struct Contract {
    metadata: TokenMetadata,
    mod_list: AccountSet,
    registered_accounts: u64,
}

impl Contract {
    pub closed spec fn wf(&self) -> bool {
        self.mod_list.wf()
    }

    /// Moderators.
    pub closed spec fn mods(&self) -> Set<Seq<char>> {
        self.mod_list@
    }

    /// Number of ledger accounts this service has opened.
    pub closed spec fn registered(&self) -> u64 {
        self.registered_accounts
    }

    pub closed spec fn meta(&self) -> TokenMetadataView {
        self.metadata@
    }

    /// The token service that `state` describes.
    pub fn from_state(state: State) -> (r: Contract)
        ensures
            r.wf(),
            r.meta() == state.metadata@,
            r.mods() == id_set(state.mod_list@),
            r.registered() == state.registered_accounts,
    {
        Contract {
            metadata: state.metadata,
            mod_list: AccountSet::from_members(state.mod_list),
            registered_accounts: state.registered_accounts,
        }
    }

    /// The token service's state as plain values.
    pub fn into_state(self) -> (r: State)
        requires
            self.wf(),
        ensures
            r.metadata@ == self.meta(),
            id_set(r.mod_list@) == self.mods(),
            r.registered_accounts == self.registered(),
    {
        State {
            metadata: self.metadata,
            mod_list: self.mod_list.into_members(),
            registered_accounts: self.registered_accounts,
        }
    }

    /// Initializes the token: its caller becomes the first moderator, and the
    /// owner receives the whole supply. Refused when the service already has
    /// state, or for malformed metadata.
    pub fn new(
        env: &CallEnv,
        owner_id: String,
        total_supply: u128,
        metadata: TokenMetadata,
        state_exists: bool,
    ) -> (r: Result<(Contract, Vec<LedgerOp>), CallError>)
        ensures
            state_exists ==> r == Err::<(Contract, Vec<LedgerOp>), CallError>(
                CallError::Validation(ValidationError::AlreadyInitialized),
            ),
            !state_exists && !metadata_valid(metadata@) ==> r == Err::<(Contract, Vec<LedgerOp>), CallError>(
                CallError::Validation(ValidationError::InvalidMetadata),
            ),
            !state_exists && metadata_valid(metadata@) ==> match r {
                Ok((c, ops)) => {
                    &&& c.wf()
                    &&& c.mods() == Set::<Seq<char>>::empty().insert(env.predecessor_account_id@)
                    &&& c.registered() == 1
                    &&& c.meta() == metadata@
                    &&& is_register_and_mint(ops@, owner_id@, total_supply, INITIAL_MINT_MEMO@)
                },
                Err(_) => false,
            },
    {
        if state_exists {
            return Err(CallError::Validation(ValidationError::AlreadyInitialized));
        }
        if !metadata.is_valid() {
            return Err(CallError::Validation(ValidationError::InvalidMetadata));
        }
        let mut mod_list = AccountSet::new();
        mod_list.insert(env.predecessor_account_id.clone());
        let mut ops: Vec<LedgerOp> = Vec::new();
        ops.push(LedgerOp::RegisterAccount { account_id: owner_id.clone() });
        ops.push(
            LedgerOp::Mint {
                account_id: owner_id,
                amount: total_supply,
                memo: String::from_str(INITIAL_MINT_MEMO),
            },
        );
        Ok((Contract { metadata, mod_list, registered_accounts: 1 }, ops))
    }

    /// Makes `account_id` a moderator. Only moderators may call this.
    pub fn add_mod(&mut self, env: &CallEnv, account_id: String) -> (r: Result<(), CallError>)
        requires
            old(self).wf(),
        ensures
            final(self).wf(),
            !old(self).mods().contains(env.predecessor_account_id@) ==> r == Err::<(), CallError>(
                CallError::Access(AccessError::NotPrivileged),
            ) && *final(self) == *old(self),
            old(self).mods().contains(env.predecessor_account_id@) ==> r is Ok && final(self).mods()
                == old(self).mods().insert(account_id@) && final(self).registered() == old(self).registered()
                && final(self).meta() == old(self).meta(),
    {
        if let Err(e) = authorize(
            &env.predecessor_account_id,
            Capability::Privileged,
            &env.current_account_id,
            &self.mod_list,
        ) {
            return Err(CallError::Access(e));
        }
        self.mod_list.insert(account_id);
        Ok(())
    }

    /// Whether `account_id` is a moderator.
    pub fn is_mod(&self, account_id: &String) -> (r: bool)
        requires
            self.wf(),
        ensures
            r == self.mods().contains(account_id@),
    {
        self.mod_list.contains(account_id)
    }

    /// Number of ledger accounts this service has opened.
    pub fn get_registered_accounts(&self) -> (r: u64)
        ensures
            r == self.registered(),
    {
        self.registered_accounts
    }

    /// The token's metadata.
    pub fn ft_metadata(&self) -> (r: &TokenMetadata)
        ensures
            r@ == self.meta(),
    {
        &self.metadata
    }

    /// Funds the faucet `faucet_account_id` with `ft_initial_balance` new
    /// tokens and lists the token there. Only moderators may call this; the
    /// allowance must stay below the initial balance, and the faucet must not
    /// hold a ledger account yet (`faucet_registered` tells whether it does).
    pub fn list_on_faucet(
        &mut self,
        env: &CallEnv,
        faucet_account_id: String,
        ft_request_allowance: u128,
        ft_initial_balance: u128,
        faucet_registered: bool,
    ) -> (r: Result<(Vec<LedgerOp>, Chain), CallError>)
        requires
            old(self).wf(),
        ensures
            final(self).wf(),
            final(self).mods() == old(self).mods(),
            final(self).meta() == old(self).meta(),
            !old(self).mods().contains(env.predecessor_account_id@) ==> r == Err::<
                (Vec<LedgerOp>, Chain),
                CallError,
            >(CallError::Access(AccessError::NotPrivileged)) && *final(self) == *old(self),
            old(self).mods().contains(env.predecessor_account_id@) && ft_request_allowance
                >= ft_initial_balance ==> r == Err::<(Vec<LedgerOp>, Chain), CallError>(
                CallError::Validation(ValidationError::AllowanceNotBelowBalance),
            ) && *final(self) == *old(self),
            old(self).mods().contains(env.predecessor_account_id@) && ft_request_allowance
                < ft_initial_balance && faucet_registered ==> r == Err::<(Vec<LedgerOp>, Chain), CallError>(
                CallError::Validation(ValidationError::AlreadyListed),
            ) && *final(self) == *old(self),
            old(self).mods().contains(env.predecessor_account_id@) && ft_request_allowance
                < ft_initial_balance && !faucet_registered ==> final(self).registered() == bumped(
                old(self).registered(),
            ) && match r {
                Ok((ops, c)) => is_register_and_mint(
                    ops@,
                    faucet_account_id@,
                    ft_initial_balance,
                    FAUCET_MINT_MEMO@,
                ) && is_faucet_listing_chain(
                    c,
                    faucet_account_id@,
                    ft_request_allowance,
                    ft_initial_balance,
                    old(self).meta(),
                ),
                Err(_) => false,
            },
    {
        if let Err(e) = authorize(
            &env.predecessor_account_id,
            Capability::Privileged,
            &env.current_account_id,
            &self.mod_list,
        ) {
            return Err(CallError::Access(e));
        }
        if ft_request_allowance >= ft_initial_balance {
            return Err(CallError::Validation(ValidationError::AllowanceNotBelowBalance));
        }
        if faucet_registered {
            return Err(CallError::Validation(ValidationError::AlreadyListed));
        }
        if self.registered_accounts < u64::MAX {
            self.registered_accounts = self.registered_accounts + 1;
        }
        let mut ops: Vec<LedgerOp> = Vec::new();
        ops.push(LedgerOp::RegisterAccount { account_id: faucet_account_id.clone() });
        ops.push(
            LedgerOp::Mint {
                account_id: faucet_account_id.clone(),
                amount: ft_initial_balance,
                memo: String::from_str(FAUCET_MINT_MEMO),
            },
        );
        let chain = single_step(
            faucet_account_id,
            RemoteAction::FunctionCall {
                method: Method::FtListFromFactory {
                    ft_request_allowance,
                    ft_initial_balance,
                    ft_metadata: self.metadata.duplicate(),
                },
                deposit: 0,
                gas_tgas: LIST_ON_FAUCET_GAS_TGAS,
            },
        );
        Ok((ops, chain))
    }

    /// Takes the token off the faucet `faucet_account_id`. Only moderators
    /// may call this, and `confirm` must be set.
    pub fn remove_from_faucet(&self, env: &CallEnv, faucet_account_id: String, confirm: bool) -> (r: Result<
        Chain,
        CallError,
    >)
        requires
            self.wf(),
        ensures
            !self.mods().contains(env.predecessor_account_id@) ==> r == Err::<Chain, CallError>(
                CallError::Access(AccessError::NotPrivileged),
            ),
            self.mods().contains(env.predecessor_account_id@) && !confirm ==> r == Err::<Chain, CallError>(
                CallError::Validation(ValidationError::NotConfirmed),
            ),
            self.mods().contains(env.predecessor_account_id@) && confirm ==> match r {
                Ok(c) => c.steps@.len() == 1 && c.steps@[0].receiver_id == faucet_account_id
                    && c.steps@[0].actions@ == seq![
                    RemoteAction::FunctionCall {
                        method: Method::FtRemoveToken { confirm: true },
                        deposit: 0,
                        gas_tgas: REMOVE_FROM_FAUCET_GAS_TGAS,
                    },
                ] && c.continuation is None,
                Err(_) => false,
            },
    {
        if let Err(e) = authorize(
            &env.predecessor_account_id,
            Capability::Privileged,
            &env.current_account_id,
            &self.mod_list,
        ) {
            return Err(CallError::Access(e));
        }
        if !confirm {
            return Err(CallError::Validation(ValidationError::NotConfirmed));
        }
        Ok(single_step(
            faucet_account_id,
            RemoteAction::FunctionCall {
                method: Method::FtRemoveToken { confirm },
                deposit: 0,
                gas_tgas: REMOVE_FROM_FAUCET_GAS_TGAS,
            },
        ))
    }

    /// Deletes this service's account, sending what is left to the calling
    /// moderator. Only moderators may call this.
    pub fn delete_contract_account(&self, env: &CallEnv) -> (r: Result<Chain, CallError>)
        requires
            self.wf(),
        ensures
            !self.mods().contains(env.predecessor_account_id@) ==> r == Err::<Chain, CallError>(
                CallError::Access(AccessError::NotPrivileged),
            ),
            self.mods().contains(env.predecessor_account_id@) ==> match r {
                Ok(c) => c.steps@.len() == 1 && c.steps@[0].receiver_id == env.current_account_id
                    && c.steps@[0].actions@ == seq![
                    RemoteAction::DeleteAccount { beneficiary_id: env.predecessor_account_id },
                ] && c.continuation is None,
                Err(_) => false,
            },
    {
        if let Err(e) = authorize(
            &env.predecessor_account_id,
            Capability::Privileged,
            &env.current_account_id,
            &self.mod_list,
        ) {
            return Err(CallError::Access(e));
        }
        Ok(single_step(
            env.current_account_id.clone(),
            RemoteAction::DeleteAccount { beneficiary_id: env.predecessor_account_id.clone() },
        ))
    }
}

} // verus!
