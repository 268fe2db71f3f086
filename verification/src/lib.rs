//! Accounting and reconciliation logic that mirrors the state of an embedded
//! EVM into a native ledger and object registry.
//!
//! Two things are done here. A transaction that the EVM executed before is
//! replayed so that its payer ends with the balance that the first execution
//! left ([`replay`]). And the tokens of an ERC-721 contract are found, in the
//! storage of the contract or by asking the contract, and brought into the
//! registry of the chain ([`slots`], [`scan`], [`registry`], [`migrate`]).
//!
//! The ledger, the EVM, the storage of contracts and the registry live
//! outside this crate. The functions here admit callers, compute amounts and
//! storage keys, and decide what is to be asked of those; their caller asks
//! it, and hands back what came of it.

pub mod bytes;
pub mod hash;
pub mod uint;
pub mod slots;
pub mod account;
pub mod replay;
pub mod registry;
pub mod scan;
pub mod migrate;
pub mod cli;
