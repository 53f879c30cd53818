//! The retry policy of the log uploader: a failed upload is retried with a
//! growing pause, and given up after a fixed number of attempts.

use vstd::prelude::*;

verus! {

/// Attempts made on one file before giving up on it.
pub const MAX_UPLOAD_ATTEMPTS: u64 = 5;

/// The pause grows by this many seconds with each failed attempt.
pub const BACKOFF_STEP_SECS: u64 = 5;

/// The pause stops growing after this many steps.
pub const BACKOFF_MAX_STEPS: u64 = 6;

/// The pause before the next attempt, after `attempts` attempts.
pub open spec fn retry_delay_spec(attempts: u64) -> u64 {
    if attempts == 0 {
        0
    } else if attempts < BACKOFF_MAX_STEPS {
        (BACKOFF_STEP_SECS * attempts) as u64
    } else {
        (BACKOFF_STEP_SECS * BACKOFF_MAX_STEPS) as u64
    }
}

/// Seconds to wait before the next attempt, after `attempts` attempts: none
/// before the first, then 5 s times the number of attempts, at most 30 s.
pub fn retry_delay_secs(attempts: u64) -> (secs: u64)
    ensures
        secs == retry_delay_spec(attempts),
        secs <= BACKOFF_STEP_SECS * BACKOFF_MAX_STEPS,
{
    if attempts == 0 {
        0
    } else if attempts < BACKOFF_MAX_STEPS {
        BACKOFF_STEP_SECS * attempts
    } else {
        BACKOFF_STEP_SECS * BACKOFF_MAX_STEPS
    }
}

/// Whether a file whose `attempts`-th attempt just failed gets another one.
/// A file is thus tried at most `MAX_UPLOAD_ATTEMPTS` times.
pub fn should_retry(attempts: u64) -> (retry: bool)
    ensures
        retry <==> attempts < MAX_UPLOAD_ATTEMPTS,
{
    attempts < MAX_UPLOAD_ATTEMPTS
}

} // verus!
