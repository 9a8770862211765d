//! The reasons for which an operation is refused.

use vstd::prelude::*;

verus! {

/// Why an operation was refused. A refused operation changes nothing.
#[derive(Clone, Copy, Debug, PartialEq, Eq, Structural)]
pub enum Error {
    /// The admin configuration is already stored.
    AlreadyInitialized,
    /// No record is stored under the given key.
    NotFound,
    /// An amount is not positive, or a sum or rate is out of range.
    InvalidAmount,
    /// The record is not in a state that admits the operation.
    InvalidState,
    /// The identity is already a participant of the giveaway.
    AlreadyEntered,
    /// The named identity has not approved the call.
    Unauthorized,
    /// A guarded operation is already running.
    ReentrancyDetected,
    /// The token collaborator did not move the value.
    TransferFailed,
}

} // verus!
