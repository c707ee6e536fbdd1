//! The error taxonomy of the contract.

use vstd::prelude::*;

verus! {

/// Everything that can go wrong while handling a message.
///
/// Errors are returned as values to the host, which translates them into a
/// call abort and rolls back any writes of the failed call; nothing here
/// panics.
#[derive(Clone, Copy, Debug, PartialEq, Eq, Structural)]
pub enum ContractError {
    /// A reset was attempted by a caller other than the owner.
    Unauthorized,
    /// An operation needed the state record before any instantiation.
    Uninitialized,
    /// The stored state record could not be decoded.
    SerializationError,
    /// An incoming message did not parse against its schema.
    MalformedMessage,
}

} // verus!
