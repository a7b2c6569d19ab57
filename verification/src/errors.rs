//! The reasons for which an operation is refused.
//!
//! An operation that is refused changes nothing: the error is the whole
//! outcome.

use vstd::prelude::*;

verus! {

/// Why the inputs of an operation are not acceptable.
#[derive(Clone, Copy, Debug, PartialEq, Eq, Structural)]
pub enum ValidationError {
    /// There are not as many shares as there are participants.
    LengthMismatch,
    /// The participant list is empty.
    NoParticipants,
    /// A share is below zero.
    NegativeShare,
    /// The shares do not add up to the total.
    ShareSumMismatch,
    /// A deposit is below zero; the deposit operation never pays back.
    NegativeAmount,
}

/// What was looked for and is not there.
#[derive(Clone, Copy, Debug, PartialEq, Eq, Structural)]
pub enum NotFoundError {
    /// No administrator has been recorded.
    Admin,
    /// No split is recorded under the identifier.
    Split,
    /// The identity is not a participant of the split.
    Participant,
}

/// Which rule of the lifecycle forbids the operation in the current status.
#[derive(Clone, Copy, Debug, PartialEq, Eq, Structural)]
pub enum InvalidStateError {
    /// Deposits are taken only while the split is pending or active.
    NotAcceptingDeposits,
    /// Funds are released only from a completed split.
    NotCompleted,
    /// A released split can no longer be cancelled.
    AlreadyReleased,
}

/// The categories of failure of the escrow operations.
#[derive(Clone, Copy, Debug, PartialEq, Eq, Structural)]
pub enum EscrowError {
    /// The administrator was already recorded.
    AlreadyInitialized,
    /// The inputs are malformed.
    Validation(ValidationError),
    /// A record or a participant is missing.
    NotFound(NotFoundError),
    /// The status of the split forbids the operation.
    InvalidState(InvalidStateError),
    /// The deposit is larger than what the participant still owes.
    Overpayment,
    /// The caller is not the identity that the operation requires.
    Unauthorized,
}

impl EscrowError {
    /// The text of [`EscrowError::message`].
    pub open spec fn message_text(self) -> Seq<char> {
        match self {
            EscrowError::AlreadyInitialized => "Contract already initialized"@,
            EscrowError::Validation(ValidationError::LengthMismatch) =>
                "Participant addresses and shares must have the same length"@,
            EscrowError::Validation(ValidationError::NoParticipants) =>
                "At least one participant is required"@,
            EscrowError::Validation(ValidationError::NegativeShare) =>
                "Participant shares must not be negative"@,
            EscrowError::Validation(ValidationError::ShareSumMismatch) =>
                "Participant shares must sum to total amount"@,
            EscrowError::Validation(ValidationError::NegativeAmount) =>
                "Deposit amount must not be negative"@,
            EscrowError::NotFound(NotFoundError::Admin) => "Admin not set"@,
            EscrowError::NotFound(NotFoundError::Split) => "Split not found"@,
            EscrowError::NotFound(NotFoundError::Participant) => "Participant not found in split"@,
            EscrowError::InvalidState(InvalidStateError::NotAcceptingDeposits) =>
                "Split is not accepting deposits"@,
            EscrowError::InvalidState(InvalidStateError::NotCompleted) => "Split is not completed"@,
            EscrowError::InvalidState(InvalidStateError::AlreadyReleased) =>
                "Cannot cancel a released split"@,
            EscrowError::Overpayment => "Deposit exceeds remaining amount owed"@,
            EscrowError::Unauthorized => "Caller is not authorized"@,
        }
    }

    /// A sentence that tells a person why the operation was refused.
    pub fn message(&self) -> (r: &'static str)
        ensures
            r@ == self.message_text(),
    {
        match self {
            EscrowError::AlreadyInitialized => "Contract already initialized",
            EscrowError::Validation(ValidationError::LengthMismatch) =>
                "Participant addresses and shares must have the same length",
            EscrowError::Validation(ValidationError::NoParticipants) =>
                "At least one participant is required",
            EscrowError::Validation(ValidationError::NegativeShare) =>
                "Participant shares must not be negative",
            EscrowError::Validation(ValidationError::ShareSumMismatch) =>
                "Participant shares must sum to total amount",
            EscrowError::Validation(ValidationError::NegativeAmount) =>
                "Deposit amount must not be negative",
            EscrowError::NotFound(NotFoundError::Admin) => "Admin not set",
            EscrowError::NotFound(NotFoundError::Split) => "Split not found",
            EscrowError::NotFound(NotFoundError::Participant) => "Participant not found in split",
            EscrowError::InvalidState(InvalidStateError::NotAcceptingDeposits) =>
                "Split is not accepting deposits",
            EscrowError::InvalidState(InvalidStateError::NotCompleted) => "Split is not completed",
            EscrowError::InvalidState(InvalidStateError::AlreadyReleased) =>
                "Cannot cancel a released split",
            EscrowError::Overpayment => "Deposit exceeds remaining amount owed",
            EscrowError::Unauthorized => "Caller is not authorized",
        }
    }
}

} // verus!
