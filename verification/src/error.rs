use vstd::prelude::*;

verus! {

/// Why an operation was refused. Every refusal leaves all records as they were.
#[derive(Clone, Copy, Debug, PartialEq, Eq, Structural)]
pub enum ErrorCode {
    /// The record to be created is already there.
    AlreadyExists,
    /// A record that the operation needs is missing.
    NotFound,
    /// The participant holds as many assets in custody as the ceiling allows,
    /// or there is nothing to release or to redeem.
    LimitExceeded,
    /// The asset has not been in custody for the whole freeze period.
    NotElapsed,
    /// A count would have gone below zero.
    Underflow,
    /// A sum would have left the range of its type.
    Overflow,
    /// The caller is not the identity that the operation requires.
    Unauthorized,
    /// The asset is not a verified member of the declared collection.
    CollectionMismatch,
}

} // verus!
