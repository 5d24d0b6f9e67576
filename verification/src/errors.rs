//! The error taxonomy shared by every operation.

use vstd::prelude::*;

verus! {

/// Every way an operation can be rejected. Each precondition of an entry
/// point maps to exactly one of these; a violation aborts the operation
/// before any state change.
#[derive(Clone, Copy, Debug, PartialEq, Eq, Structural)]
pub enum ErrorCode {
    /// A zero amount was supplied where a positive one is required.
    InvalidAmount,
    /// The supply counter would underflow.
    Overflow,
    /// A signer/owner or account-relationship check failed, including a
    /// discriminant that does not reproduce the record's derived address.
    Unauthorized,
    /// The source balance account holds less than the requested amount.
    InsufficientBalance,
    /// The one-time mint was already performed.
    AlreadyMinted,
    /// The caller is not the recorded delegate of the source account.
    InvalidDelegate,
    /// The requested amount exceeds the recorded delegated amount.
    InsufficientAllowance,
}

impl ErrorCode {
    /// A human-readable description of the error.
    pub fn message(&self) -> (r: &'static str)
        ensures
            *self == ErrorCode::InvalidAmount ==> r@ == "Invalid amount: must be greater than 0"@,
            *self == ErrorCode::Overflow ==> r@ == "Arithmetic overflow occurred"@,
            *self == ErrorCode::Unauthorized ==> r@ == "Unauthorized: caller is not the owner"@,
            *self == ErrorCode::InsufficientBalance ==> r@ == "Insufficient balance"@,
            *self == ErrorCode::AlreadyMinted ==> r@ == "Initial supply has already been minted"@,
            *self == ErrorCode::InvalidDelegate ==> r@ == "Invalid delegate"@,
            *self == ErrorCode::InsufficientAllowance ==> r@ == "Insufficient allowance"@,
    {
        match self {
            ErrorCode::InvalidAmount => "Invalid amount: must be greater than 0",
            ErrorCode::Overflow => "Arithmetic overflow occurred",
            ErrorCode::Unauthorized => "Unauthorized: caller is not the owner",
            ErrorCode::InsufficientBalance => "Insufficient balance",
            ErrorCode::AlreadyMinted => "Initial supply has already been minted",
            ErrorCode::InvalidDelegate => "Invalid delegate",
            ErrorCode::InsufficientAllowance => "Insufficient allowance",
        }
    }
}

} // verus!
