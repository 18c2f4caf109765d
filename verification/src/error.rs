//! Rejection reasons. Every failed gate is a normal, recoverable outcome
//! reported to the caller, never a crash; the caller aborts the enclosing
//! transaction, so no partial transfer ever occurs.

use vstd::prelude::*;

verus! {

/// Why a swap resolution was rejected.
#[derive(Clone, Copy, Debug, PartialEq, Eq)]
pub enum ErrorCode {
    /// The request named no amount and did not ask for everything.
    InvalidArgs,
    /// The swap was attempted at or before the parent's go-live instant.
    ParentNotLiveYet,
    /// The swap was attempted at or before the child's go-live instant.
    ChildNotLiveYet,
    /// The swap was attempted at or after the parent's freeze instant.
    ParentSwapFrozen,
    /// The swap was attempted at or after the child's freeze instant.
    ChildSwapFrozen,
    /// A fixed-amount request exceeds the bounding account's balance.
    TokenAccountAmountTooLow,
}

} // verus!
