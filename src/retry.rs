//! Retry policy for submitting a transaction: a bounded number of attempts with a fixed
//! pause between them.
use vstd::prelude::*;

verus! {

/// Attempts made before giving up.
pub const MAX_RETRIES: u8 = 3;

/// Pause between two attempts, in milliseconds.
pub const RETRY_DELAY_MS: u64 = 500;

/// What follows an attempt.
#[derive(PartialEq, Eq, Structural, Clone, Copy, Debug)]
pub enum RetryAction {
    /// The transaction went through.
    Done,
    /// Pause this many milliseconds, then make the next attempt.
    RetryAfter(u64),
    /// The last attempt failed.
    GiveUp,
}

/// The step after attempt number `attempt` (counted from 1) succeeded or failed.
pub fn after_attempt(attempt: u8, succeeded: bool) -> (r: RetryAction)
    requires
        1 <= attempt <= MAX_RETRIES,
    ensures
        succeeded ==> r == RetryAction::Done,
        !succeeded && attempt < MAX_RETRIES ==> r == RetryAction::RetryAfter(RETRY_DELAY_MS),
        !succeeded && attempt == MAX_RETRIES ==> r == RetryAction::GiveUp,
{
    if succeeded {
        RetryAction::Done
    } else if attempt < MAX_RETRIES {
        RetryAction::RetryAfter(RETRY_DELAY_MS)
    } else {
        RetryAction::GiveUp
    }
}

} // verus!
