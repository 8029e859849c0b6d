//! The error taxonomy of the program core.
//!
//! Every failure is detected at the earliest possible check and aborts
//! the call; there is no recovery or retry anywhere in this core.

use vstd::prelude::*;

verus! {

/// Everything that can go wrong while decoding an instruction or
/// materializing the storage account.
#[derive(Clone, Copy, Debug, PartialEq, Eq, Structural)]
pub enum TweetError {
    /// The instruction buffer is too short at some parse step.
    MalformedInstruction,
    /// The opcode is not a recognized operation.
    UnsupportedOperation,
    /// The topic or content bytes are not valid UTF-8 text.
    InvalidEncoding,
    /// The topic or content exceeds its byte-length limit.
    ContentTooLong,
    /// The host rejected the account-creation request.
    AllocationFailed,
    /// The freshly created storage account was not writable.
    AccountAccessDenied,
    /// The host's clock service was unavailable.
    ClockUnavailable,
}

} // verus!
