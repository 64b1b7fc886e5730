//! A multi-party authorization engine.
//!
//! A registry names a set of owners and a threshold. Any owner may propose a
//! call to another program; owners approve it one by one; once as many owners
//! as the threshold asks for have approved, the call may be dispatched, and it
//! is dispatched at most once.
//!
//! The engine decides; the ledger stores the records and carries out the call.

pub mod error;
pub mod guarantees;
pub mod ledger;
pub mod model;
pub mod multisig;
pub mod owners;
pub mod state;

pub use crate::error::MultisigError;
pub use crate::multisig::approve_transaction;
pub use crate::multisig::complete_execution;
pub use crate::multisig::create_multisig;
pub use crate::multisig::execute_transaction;
pub use crate::multisig::propose_transaction;
pub use crate::owners::assert_unique_owners;
pub use crate::state::Multisig;
pub use crate::state::Transaction;
pub use crate::state::TransactionAccount;
