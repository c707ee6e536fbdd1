//! A minimal stateful counter contract with an owner-gated reset.
//!
//! The contract keeps a single persisted record (a signed counter and the
//! identity of the account that instantiated it) in an opaque key-value
//! store supplied by the host runtime. Three entry operations are offered:
//! instantiate (creates the record), execute (increments the counter, or
//! resets it when the caller is the owner), and query (reads the counter).
//! Every transition is specified against a mathematical model of the store
//! and proved.

pub mod bytes;
pub mod codec;
pub mod contract;
pub mod entry;
pub mod laws;
mod error;
pub mod msg;
pub mod state;
pub mod store;

pub use crate::error::ContractError;
