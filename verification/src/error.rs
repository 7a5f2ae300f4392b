//! Why the ledger refuses an operation.

use vstd::prelude::*;

verus! {

/// The reasons for which the ledger itself refuses an operation.
#[derive(Clone, Copy, Debug, PartialEq, Eq, Structural)]
pub enum ErrorCode {
    /// A sum, difference or product left the range of its integer type.
    CalculationOverflow,
    /// A session was to be opened while one is open already.
    AlreadyInSession,
    /// A session was to be closed while none is open.
    NotInSession,
    /// The closing time of a session is not after its opening time.
    InvalidEndTime,
    /// Funds were to be reclaimed while a session is open.
    ActiveSession,
    /// The balance does not cover what the operation needs.
    InsufficientBalance,
    /// The caller does not own the account.
    Unauthorized,
    /// There is no account to work on.
    NotFound,
    /// The account to create is there already.
    AlreadyExists,
}

/// `anchor_lang::error::Error`, the error with which a custody transfer
/// fails. Nothing is claimed of it: a value of this type is opaque to the
/// proofs, and the ledger only hands it on.
#[verifier::external_type_specification]
#[verifier::external_body]
pub struct ExTransferFailure(anchor_lang::error::Error);

/// Why an operation that moves funds did not go through.
#[derive(Debug, PartialEq, Eq)]
pub enum LedgerError {
    /// The ledger refused the operation.
    Refused(ErrorCode),
    /// The custody transfer failed; its error is handed on untouched.
    Transfer(anchor_lang::error::Error),
}

} // verus!
