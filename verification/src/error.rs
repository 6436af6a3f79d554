//! Identities and the error taxonomy shared by every operation.

use vstd::prelude::*;

verus! {

/// An opaque 256-bit identity: a beneficiary, an administrator or a vault.
///
/// Two addresses are the same identity exactly when both halves agree.
#[derive(Clone, Copy, Debug, PartialEq, Eq, Hash, Structural)]
pub struct Address {
    pub hi: u128,
    pub lo: u128,
}

/// The reason the asset-transfer backend gave for refusing a transfer.
#[derive(Clone, Copy, Debug, PartialEq, Eq, Structural)]
pub struct TransferError {
    /// The backend's own error code, carried through untouched.
    pub code: u64,
}

/// Everything an operation can report instead of succeeding.
///
/// None of these is fatal, and an operation that reports one has left all
/// state exactly as it found it.
#[derive(Clone, Copy, Debug, PartialEq, Eq, Structural)]
pub enum VestingError {
    /// The caller is not allowed to perform the operation.
    Unauthorized,
    /// The terms of a new schedule are not acceptable.
    InvalidParameters,
    /// The engine, or the schedule addressed, is paused.
    Paused,
    /// The schedule has been revoked before.
    AlreadyRevoked,
    /// Nothing is due at this instant; not a failure, just an empty outcome.
    NothingToClaim,
    /// A quantity does not fit the integer type that has to hold it.
    ArithmeticOverflow,
    /// The backend refused the transfer; the ledger was not touched.
    TransferFailed(TransferError),
    /// The registry would be left without any administrator.
    CannotRemoveLastAdmin,
    /// No schedule has the identifier given.
    NotFound,
}

} // verus!
