//! Retry classification and backoff computation for the request pipeline.
use vstd::prelude::*;
use vstd::arithmetic::power2::*;

verus! {

/// Statuses on which the request pipeline retries: 429 and the
/// five-hundreds that signal a transient server-side condition.
pub open spec fn spec_is_retryable_status(status: u16) -> bool {
    status == 429 || status == 500 || status == 502 || status == 503 || status == 504
}

/// Whether a response status is retryable.
pub fn is_retryable_status(status: u16) -> (r: bool)
    ensures
        r == spec_is_retryable_status(status),
{
    status == 429 || status == 500 || status == 502 || status == 503 || status == 504
}

/// The backoff before the next attempt: a server-supplied `Retry-After`
/// count of seconds verbatim, or else `min(2^attempt, 8)` seconds.
pub open spec fn spec_backoff_secs(attempt: u32, retry_after: Option<u64>) -> u64 {
    match retry_after {
        Some(k) => k,
        None => if pow2(attempt as nat) < 8 {
            pow2(attempt as nat) as u64
        } else {
            8
        },
    }
}

/// Computes the backoff delay in seconds after a failed attempt.
pub fn calculate_backoff(attempt: u32, retry_after: Option<u64>) -> (r: u64)
    ensures
        r == spec_backoff_secs(attempt, retry_after),
{
    match retry_after {
        Some(k) => k,
        None => {
            proof {
                lemma2_to64();
                if attempt > 3 {
                    lemma_pow2_strictly_increases(3, attempt as nat);
                }
            }
            if attempt == 0 {
                1
            } else if attempt == 1 {
                2
            } else if attempt == 2 {
                4
            } else {
                8
            }
        },
    }
}

} // verus!
