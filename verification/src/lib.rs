//! A single-owner savings vault ("lockbox").
//!
//! A holder deposits funds toward a fixed target amount; once the running
//! balance reaches the target, the owner may withdraw any portion. An
//! emergency path withdraws everything and permanently disables the vault.
//!
//! The vault's state machine is implemented as pure functions: each handler
//! takes the full entity state and returns either the new state together with
//! the one external transfer to settle, or a typed failure. Settlement itself
//! and durable storage are the host's job; the host is expected to persist
//! the new state only if the transfer settles, as one atomic unit.

pub mod derivation;
pub mod errors;
pub mod history;
pub mod instructions;
pub mod states;
pub mod store;
pub mod transfer;
