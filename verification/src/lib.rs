//! A fungible-token ledger.
//!
//! The ledger tracks, for a set of accounts, how much of one divisible asset
//! each account holds and how much each account has allowed another to move
//! on its behalf. Who is calling is an explicit argument of every operation,
//! and every operation hands back the notification that the host is to
//! deliver, so that the ledger itself touches nothing but its own state.
//!
//! [`Erc20`] is the executable ledger. [`model::Ledger`] is the mathematical
//! value that it stands for, [`laws`] holds what is proved of every such
//! value, and [`tables`] holds what is taken on trust of the storage map that
//! the ledger keeps its entries in.

pub mod account;
pub mod balances;
pub mod events;
pub mod laws;
pub mod ledger;
pub mod model;
pub mod tables;

pub use account::{AccountId, Balance};
pub use events::{Approval, Transfer};
pub use ledger::Erc20;
