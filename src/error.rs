use vstd::prelude::*;

verus! {

/// Why an operation was rejected. Every rejection leaves all records untouched.
#[derive(Clone, Copy, Debug, PartialEq, Eq, Structural)]
pub enum ErrorCode {
    /// The registry has already been initialized.
    AlreadyInitialized,
    /// A string or a membership list is over its bound.
    LimitExceeded,
    /// Only the manager may perform this operation.
    NotManager,
    /// The caller lacks the capability the operation needs.
    NotAuthorized,
    /// The caller already has a pending admin request.
    AlreadyRequested,
    /// The pending-request queue or an owned-instance list is full.
    ListIsFull,
    /// No pending admin request exists for the wallet.
    RequestNotFound,
    /// The payer's balance does not cover the price.
    InsufficientFunds,
    /// Arithmetic on an expiry would leave the range of `i64`.
    Overflow,
    /// The time-boxed instance is past its expiry.
    Expired,
    /// The value is already present.
    ExistingValue,
}

} // verus!
