//! The ways in which an operation on the ledger can fail.

use vstd::prelude::*;

verus! {

/// Why an operation was refused.
///
/// Every failure is final for the call that met it: nothing is retried, and
/// the call leaves the deployment and the caller's accounts as it found them.
#[derive(Clone, Copy, Debug, PartialEq, Eq, Structural)]
pub enum ErrorCode {
    /// The depositor holds fewer lamports than the deposit asks for.
    InsufficientFunds,
    /// A sweep was asked for by someone who is not the administrator.
    Unauthorized,
    /// The ledger exists already; it is created once.
    AlreadyInitialized,
    /// A balance would have passed the largest value a `u64` holds.
    ArithmeticOverflow,
    /// A deposit was made before there was a ledger to credit.
    RecordNotFound,
}

impl ErrorCode {
    /// The text of `message`, as a sequence of characters.
    pub open spec fn message_text(self) -> Seq<char> {
        match self {
            ErrorCode::InsufficientFunds => "User has insufficient funds for this transaction."@,
            ErrorCode::Unauthorized => "Only the admin can execute this transaction."@,
            ErrorCode::AlreadyInitialized => "The presale has already been initialized."@,
            ErrorCode::ArithmeticOverflow => "The amount does not fit in the balance."@,
            ErrorCode::RecordNotFound => "The presale has not been initialized."@,
        }
    }

    /// A sentence for the person who sent the transaction.
    pub fn message(&self) -> (text: &'static str)
        ensures
            text@ == self.message_text(),
    {
        match self {
            ErrorCode::InsufficientFunds => "User has insufficient funds for this transaction.",
            ErrorCode::Unauthorized => "Only the admin can execute this transaction.",
            ErrorCode::AlreadyInitialized => "The presale has already been initialized.",
            ErrorCode::ArithmeticOverflow => "The amount does not fit in the balance.",
            ErrorCode::RecordNotFound => "The presale has not been initialized.",
        }
    }
}

} // verus!
