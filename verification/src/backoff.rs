//! Exponential backoff between retries of API requests: a base delay that
//! doubles per attempt, and a jitter read from the clock.

use vstd::prelude::*;
use vstd::arithmetic::power2::{
    lemma2_to64, lemma2_to64_rest, lemma_pow2_pos, lemma_pow2_strictly_increases, lemma_pow2_unfold,
    pow2,
};

verus! {

/// Base delay for exponential backoff (milliseconds).
pub const BACKOFF_BASE_MS: u64 = 1000;

/// The exponential part of a backoff: base delay doubled per attempt after the first.
pub open spec fn backoff_base(attempt: u32) -> nat {
    (BACKOFF_BASE_MS as nat) * pow2((attempt - 1) as nat)
}

/// The jitter bound of a delay: a tenth of it, at least one.
pub open spec fn jitter_bound(delay: nat) -> nat {
    if delay / 10 == 0 { 1 } else { delay / 10 }
}

proof fn lemma_pow2_bound(n: nat, m: nat)
    requires
        n <= m,
    ensures
        1 <= pow2(n) <= pow2(m),
{
    lemma_pow2_pos(n);
    if n < m {
        lemma_pow2_strictly_increases(n, m);
    }
}

/// `BACKOFF_BASE_MS * 2^(attempt - 1)`, for the attempts whose delay fits in 64 bits.
pub fn backoff_base_ms(attempt: u32) -> (r: u64)
    requires
        1 <= attempt <= 55,
    ensures
        r == backoff_base(attempt),
{
    let mut v: u64 = BACKOFF_BASE_MS;
    let mut i: u32 = 1;
    proof {
        lemma_pow2_bound((attempt - 1) as nat, 54);
        lemma2_to64_rest();
        lemma2_to64();
    }
    while i < attempt
        invariant
            1 <= i <= attempt <= 55,
            v == BACKOFF_BASE_MS * pow2((i - 1) as nat),
            pow2((attempt - 1) as nat) <= 0x40_0000_0000_0000,
        decreases attempt - i,
    {
        proof {
            lemma_pow2_bound(i as nat, (attempt - 1) as nat);
            lemma_pow2_unfold(i as nat);
        }
        v = v * 2;
        i = i + 1;
    }
    v
}

/// The base delay is at least `BACKOFF_BASE_MS`, grows with the attempt, and
/// fits in 64 bits up to attempt 55.
pub proof fn lemma_backoff_base_bounds(attempt: u32)
    requires
        1 <= attempt <= 55,
    ensures
        BACKOFF_BASE_MS <= backoff_base(attempt) <= BACKOFF_BASE_MS * 0x40_0000_0000_0000,
{
    lemma_pow2_bound((attempt - 1) as nat, 54);
    lemma2_to64_rest();
}

/// A later attempt never waits less: the base delay grows with the attempt
/// number, doubling at each step.
pub proof fn lemma_backoff_base_monotone(a: u32, b: u32)
    requires
        1 <= a <= b,
    ensures
        backoff_base(a) <= backoff_base(b),
        a < b ==> 2 * backoff_base(a) <= backoff_base(b),
{
    lemma_pow2_bound((a - 1) as nat, (b - 1) as nat);
    if a < b {
        lemma_pow2_bound(a as nat, (b - 1) as nat);
        lemma_pow2_unfold(a as nat);
    }
}

/// Declares `std::time::SystemTime`, the clock read for jitter.
#[verifier::external_type_specification]
#[verifier::external_body]
pub struct ExSystemTime(std::time::SystemTime);

/// Calls `std::time::SystemTime::now`.
/// The value is the current time, so the contract states nothing about it.
#[verifier::external_body]
pub(crate) fn system_now() -> (r: std::time::SystemTime) {
    std::time::SystemTime::now()
}

/// Calls `SystemTime::duration_since(UNIX_EPOCH)` and gives the duration in
/// nanoseconds, or `None` when the time is before the epoch.
/// The contract states nothing about the value, which depends on the clock.
#[verifier::external_body]
pub(crate) fn nanos_since_epoch(t: &std::time::SystemTime) -> (r: Option<u128>) {
    match t.duration_since(std::time::UNIX_EPOCH) {
        Ok(d) => Some(d.as_nanos()),
        Err(_) => None,
    }
}

/// Jitter from a clock reading: the nanoseconds truncated to 64 bits, modulo 1000.
pub fn jitter_from_nanos(nanos: Option<u128>) -> (r: u64)
    ensures
        r == (match nanos {
            Some(n) => ((n % 0x1_0000_0000_0000_0000) as u64) % 1000,
            None => 0,
        }),
        r < 1000,
{
    match nanos {
        Some(n) => {
            let low = (n % 0x1_0000_0000_0000_0000) as u64;
            low % 1000
        },
        None => 0,
    }
}

/// Generate pseudo-random jitter from the clock: a value below 1000.
pub fn rand_jitter() -> (r: u64)
    ensures
        r < 1000,
{
    let t = system_now();
    jitter_from_nanos(nanos_since_epoch(&t))
}

} // verus!
