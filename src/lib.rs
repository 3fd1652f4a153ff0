//! Verified core of a family of cooperating NEAR services: a contract factory,
//! a token faucet, a funding vault and a fungible-token contract.
//!
//! Every entry point is a function from the service's state and the call's
//! environment to the new state and the remote work to dispatch. Host I/O,
//! storage and promise creation stay with the caller of this library.

pub mod access;
pub mod chain;
pub mod cooldown;
pub mod env;
pub mod factory;
pub mod faucet;
pub mod ft;
pub mod metadata;
pub mod registry;
pub mod validate;
pub mod vault;
