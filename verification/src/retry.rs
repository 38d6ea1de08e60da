use crate::decimal::{parse_u64, parsed_u64};
use vstd::prelude::*;

verus! {

/// The number of attempts that one call may make.
pub const MAX_ATTEMPTS: usize = 3;

/// The wait before the second attempt, in milliseconds.
pub const BASE_BACKOFF_MS: u64 = 400;

/// The longest wait between two attempts, in milliseconds.
pub const MAX_BACKOFF_MS: u64 = 6000;

/// Whether a response status is worth another attempt.
pub open spec fn retryable_status(status: u16) -> bool {
    status == 429 || status == 408 || (500 <= status <= 599)
}

/// True for 429, 408 and every 5xx status; false for any other status.
pub fn should_retry(status: u16) -> (retry: bool)
    ensures
        retry == retryable_status(status),
{
    status == 429 || status == 408 || (500 <= status && status <= 599)
}

/// The wait after a failed attempt, in milliseconds: the server's hint where there is one,
/// else the base wait times the square of the attempt, and never more than the ceiling.
pub open spec fn backoff_ms(attempt: nat, retry_after_ms: Option<u64>) -> nat {
    let wanted: nat = match retry_after_ms {
        Some(ms) => ms as nat,
        None => BASE_BACKOFF_MS as nat * attempt * attempt,
    };
    if wanted < MAX_BACKOFF_MS {
        wanted
    } else {
        MAX_BACKOFF_MS as nat
    }
}

/// The wait after attempt number `attempt`, in milliseconds.
pub fn backoff_duration(attempt: usize, retry_after_ms: Option<u64>) -> (ms: u64)
    ensures
        ms == backoff_ms(attempt as nat, retry_after_ms),
        ms <= MAX_BACKOFF_MS,
{
    match retry_after_ms {
        Some(hint) => if hint < MAX_BACKOFF_MS {
            hint
        } else {
            MAX_BACKOFF_MS
        },
        None => {
            if attempt >= 4 {
                assert(BASE_BACKOFF_MS as nat * (attempt as nat) * (attempt as nat)
                    >= MAX_BACKOFF_MS) by (nonlinear_arith)
                    requires
                        attempt >= 4,
                        BASE_BACKOFF_MS == 400,
                        MAX_BACKOFF_MS == 6000,
                ;
                MAX_BACKOFF_MS
            } else {
                let a: u64 = attempt as u64;
                assert(a * a <= 9) by (nonlinear_arith)
                    requires
                        a <= 3,
                ;
                assert(BASE_BACKOFF_MS as nat * (attempt as nat) * (attempt as nat) == 400 * (a
                    * a)) by (nonlinear_arith)
                    requires
                        a == attempt,
                        BASE_BACKOFF_MS == 400,
                ;
                let wanted: u64 = BASE_BACKOFF_MS * (a * a);
                if wanted < MAX_BACKOFF_MS {
                    wanted
                } else {
                    MAX_BACKOFF_MS
                }
            }
        },
    }
}

/// A count of seconds in milliseconds, held at the largest `u64` where it would not fit.
pub open spec fn seconds_as_ms(seconds: u64) -> u64 {
    if seconds * 1000 <= u64::MAX {
        (seconds * 1000) as u64
    } else {
        u64::MAX
    }
}

/// The server's hint in milliseconds: present when the header is present and writes a
/// non-negative whole number of seconds.
pub open spec fn retry_after_ms(header: Option<Seq<char>>) -> Option<u64> {
    match header {
        Some(value) => match parsed_u64(value) {
            Some(seconds) => Some(seconds_as_ms(seconds)),
            None => None,
        },
        None => None,
    }
}

/// Reads the value of a retry-after header as a hint in milliseconds.
pub fn parse_retry_after_ms(header: Option<&str>) -> (hint: Option<u64>)
    ensures
        hint == retry_after_ms(
            match header {
                Some(value) => Some(value@),
                None => None,
            },
        ),
{
    match header {
        Some(value) => match parse_u64(value) {
            Some(seconds) => match seconds.checked_mul(1000) {
                Some(ms) => Some(ms),
                None => Some(u64::MAX),
            },
            None => None,
        },
        None => None,
    }
}

/// Without a hint the wait never shrinks from one attempt to the next.
pub proof fn lemma_backoff_monotonic(earlier: nat, later: nat)
    requires
        earlier <= later,
    ensures
        backoff_ms(earlier, None) <= backoff_ms(later, None),
{
    assert(BASE_BACKOFF_MS as nat * earlier * earlier <= BASE_BACKOFF_MS as nat * later * later)
        by (nonlinear_arith)
        requires
            earlier <= later,
    ;
}

/// The wait never exceeds the ceiling.
pub proof fn lemma_backoff_capped(attempt: nat, retry_after_ms: Option<u64>)
    ensures
        backoff_ms(attempt, retry_after_ms) <= MAX_BACKOFF_MS,
{
}

/// The waits after the first three attempts, all below the ceiling.
pub proof fn lemma_backoff_schedule()
    ensures
        backoff_ms(1, None) == 400,
        backoff_ms(2, None) == 1600,
        backoff_ms(3, None) == 3600,
{
}

/// With a hint of `seconds` seconds the wait is the smaller of `seconds * 1000` and the
/// ceiling, whatever the attempt.
pub proof fn lemma_backoff_honors_hint(attempt: nat, seconds: u64)
    ensures
        backoff_ms(attempt, Some(seconds_as_ms(seconds))) == if seconds * 1000 < MAX_BACKOFF_MS {
            seconds * 1000
        } else {
            MAX_BACKOFF_MS as int
        },
{
}

} // verus!
