//! The errors that the engine's operations report.

use vstd::prelude::*;

verus! {

/// Why an operation was refused. Every error is final for the call that
/// reports it, and no state has changed when one is returned.
#[derive(Clone, Copy, Debug, PartialEq, Eq, Structural)]
pub enum ErrorCode {
    /// The given identity is not an owner of the multisig, or an owner set
    /// names one identity twice.
    InvalidOwner,
    /// Fewer owners than the threshold asks for have approved.
    NotEnoughSigners,
    /// A transaction that an owner has signed cannot be deleted.
    TransactionAlreadySigned,
    /// A count of owners or approvals left the representable range.
    Overflow,
    /// A transaction can be deleted only by the owner who created it.
    UnableToDelete,
    /// The transaction has been executed before.
    AlreadyExecuted,
    /// The threshold is zero or exceeds the number of owners.
    InvalidThreshold,
}

/// The text that explains an error.
pub open spec fn message_text(code: ErrorCode) -> Seq<char> {
    match code {
        ErrorCode::InvalidOwner => "The given owner is not part of this multisig."@,
        ErrorCode::NotEnoughSigners => "Not enough owners signed this transaction."@,
        ErrorCode::TransactionAlreadySigned => "Cannot delete a transaction that has been signed by an owner."@,
        ErrorCode::Overflow => "Overflow when adding."@,
        ErrorCode::UnableToDelete => "Cannot delete a transaction the owner did not create."@,
        ErrorCode::AlreadyExecuted => "The given transaction has already been executed."@,
        ErrorCode::InvalidThreshold => "Threshold must be less than or equal to the number of owners."@,
    }
}

impl ErrorCode {
    /// The text that explains this error.
    pub fn message(&self) -> (text: &'static str)
        ensures
            text@ == message_text(*self),
    {
        match self {
            ErrorCode::InvalidOwner => "The given owner is not part of this multisig.",
            ErrorCode::NotEnoughSigners => "Not enough owners signed this transaction.",
            ErrorCode::TransactionAlreadySigned => "Cannot delete a transaction that has been signed by an owner.",
            ErrorCode::Overflow => "Overflow when adding.",
            ErrorCode::UnableToDelete => "Cannot delete a transaction the owner did not create.",
            ErrorCode::AlreadyExecuted => "The given transaction has already been executed.",
            ErrorCode::InvalidThreshold => "Threshold must be less than or equal to the number of owners.",
        }
    }
}

} // verus!
