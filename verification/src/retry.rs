//! How long to wait before something is tried again.

use crate::clock::{clamp_i64, now_seconds, saturating_later, MAX_TIMESTAMP};
use vstd::arithmetic::power2::{
    lemma2_to64, lemma_pow2_pos, lemma_pow2_strictly_increases, lemma_pow2_unfold, pow2,
};
use vstd::prelude::*;

verus! {

/// The smaller of two numbers.
pub open spec fn smaller(a: nat, b: nat) -> nat {
    if a <= b {
        a
    } else {
        b
    }
}

/// A delay that doubles with every attempt, up to a number of doublings and a longest delay.
pub open spec fn doubled_delay(base: nat, doublings: nat, max_doublings: nat, longest: nat) -> nat {
    smaller(base * pow2(smaller(doublings, max_doublings)), longest)
}

fn power_of_two(n: u32) -> (r: u64)
    requires
        n <= 20,
    ensures
        r == pow2(n as nat),
        r <= 1_048_576,
{
    let mut r: u64 = 1;
    let mut i: u32 = 0;
    proof {
        vstd::arithmetic::power2::lemma2_to64();
    }
    while i < n
        invariant
            i <= n <= 20,
            r == pow2(i as nat),
            pow2(20) == 1_048_576,
        decreases n - i,
    {
        proof {
            lemma_pow2_unfold((i + 1) as nat);
            if i + 1 < 20 {
                lemma_pow2_strictly_increases((i + 1) as nat, 20);
            }
        }
        r = r * 2;
        i = i + 1;
    }
    proof {
        if n < 20 {
            lemma_pow2_strictly_increases(n as nat, 20);
        }
    }
    r
}

fn doubled(base: u64, doublings: u32, max_doublings: u32, longest: u64) -> (r: u64)
    requires
        base <= 100_000,
        max_doublings <= 20,
    ensures
        r == doubled_delay(base as nat, doublings as nat, max_doublings as nat, longest as nat),
        r <= longest,
{
    let n: u32 = if doublings < max_doublings {
        doublings
    } else {
        max_doublings
    };
    let p: u64 = power_of_two(n);
    assert(base * p <= 100_000 * 1_048_576) by (nonlinear_arith)
        requires
            base <= 100_000,
            p <= 1_048_576,
    ;
    let d: u64 = base * p;
    if d <= longest {
        d
    } else {
        longest
    }
}

/// A later attempt never waits less than an earlier one, and no attempt waits longer than the
/// longest delay.
pub proof fn law_delays_grow(
    base: nat,
    doublings: nat,
    more_doublings: nat,
    max_doublings: nat,
    longest: nat,
)
    requires
        doublings <= more_doublings,
    ensures
        doubled_delay(base, doublings, max_doublings, longest) <= doubled_delay(
            base,
            more_doublings,
            max_doublings,
            longest,
        ) <= longest,
{
    let a = smaller(doublings, max_doublings);
    let b = smaller(more_doublings, max_doublings);
    if a < b {
        lemma_pow2_strictly_increases(a, b);
    }
    assert(base * pow2(a) <= base * pow2(b)) by (nonlinear_arith)
        requires
            pow2(a) <= pow2(b),
    ;
}

/// Seconds before an upload is tried again after `attempts` failures: 5, doubled each time, at
/// most one hour.
pub open spec fn upload_retry_secs(attempts: nat) -> nat {
    doubled_delay(5, attempts, 10, 3600)
}

/// When an upload is tried again that failed for the `attempts`-th time at `now`.
pub fn retry_at(attempts: u32, now: i64) -> (r: i64)
    ensures
        r == clamp_i64(now + upload_retry_secs(attempts as nat)),
{
    let seconds: u64 = doubled(5, attempts, 10, 3600);
    saturating_later(now, seconds as i64)
}

/// When something is tried again that failed for the `attempts`-th time now.
pub fn next_retry_timestamp(attempts: u32) -> (r: i64)
    ensures
        exists|now: i64| #![trigger clamp_i64(now + upload_retry_secs(attempts as nat))]
            0 <= now < MAX_TIMESTAMP && r == clamp_i64(now + upload_retry_secs(attempts as nat)),
{
    let now: i64 = now_seconds();
    retry_at(attempts, now)
}

/// Seconds before a file upload is tried again: 30, doubled with each attempt after the first, at
/// most one hour.
pub open spec fn upload_backoff_secs(attempt: nat) -> nat {
    doubled_delay(30, (if attempt == 0 {
        0
    } else {
        (attempt - 1) as nat
    }), 7, 3600)
}

/// Seconds before a file upload is tried again for the `attempt`-th time.
pub fn upload_backoff(attempt: u32) -> (r: i64)
    ensures
        r == upload_backoff_secs(attempt as nat),
        30 <= r <= 3600,
{
    proof {
        law_delays_grow(30, 0, (if attempt == 0 {
            0
        } else {
            (attempt - 1) as nat
        }), 7, 3600);
        vstd::arithmetic::power2::lemma2_to64();
    }
    doubled(30, attempt.saturating_sub(1), 7, 3600) as i64
}

/// Seconds before a remote part is looked for again: 5, doubled with each attempt after the
/// first, at most five minutes.
pub open spec fn verification_backoff_secs(attempt: nat) -> nat {
    doubled_delay(5, (if attempt == 0 {
        0
    } else {
        (attempt - 1) as nat
    }), 5, 300)
}

/// Seconds before a remote part is looked for again for the `attempt`-th time.
pub fn verification_backoff(attempt: u32) -> (r: i64)
    ensures
        r == verification_backoff_secs(attempt as nat),
        5 <= r <= 300,
{
    proof {
        law_delays_grow(5, 0, (if attempt == 0 {
            0
        } else {
            (attempt - 1) as nat
        }), 5, 300);
        vstd::arithmetic::power2::lemma2_to64();
    }
    doubled(5, attempt.saturating_sub(1), 5, 300) as i64
}

/// A delay is never shorter than the first one, where that is within the longest.
pub proof fn law_delay_has_bounds(base: nat, doublings: nat, max_doublings: nat, longest: nat)
    requires
        base <= longest,
    ensures
        base <= doubled_delay(base, doublings, max_doublings, longest) <= longest,
{
    lemma_pow2_pos(smaller(doublings, max_doublings));
    assert(base * pow2(smaller(doublings, max_doublings)) >= base) by (nonlinear_arith)
        requires
            pow2(smaller(doublings, max_doublings)) >= 1,
    ;
}

/// The first attempts are a fixed time apart, and each further one waits twice as long, up to the
/// longest time.
pub proof fn law_waiting_times_double(attempt: nat)
    ensures
        upload_retry_secs(0) == 5,
        upload_retry_secs(attempt + 1) == smaller(2 * upload_retry_secs(attempt), 3600),
        upload_backoff_secs(0) == 30 && upload_backoff_secs(1) == 30,
        upload_backoff_secs(attempt + 2) == smaller(2 * upload_backoff_secs(attempt + 1), 3600),
        verification_backoff_secs(0) == 5 && verification_backoff_secs(1) == 5,
        verification_backoff_secs(attempt + 2) == smaller(
            2 * verification_backoff_secs(attempt + 1),
            160,
        ),
{
    lemma2_to64();
    lemma_doubles(5, attempt, 10, 3600);
    lemma_doubles(30, attempt, 7, 3600);
    lemma_doubles(5, attempt, 5, 300);
}

proof fn lemma_doubles(base: nat, n: nat, most: nat, longest: nat)
    ensures
        n < most ==> doubled_delay(base, n + 1, most, longest) == smaller(
            2 * (base * pow2(n)),
            longest,
        ) && doubled_delay(base, n, most, longest) == smaller(base * pow2(n), longest),
        n >= most ==> doubled_delay(base, n + 1, most, longest) == smaller(
            base * pow2(most),
            longest,
        ) && doubled_delay(base, n, most, longest) == smaller(base * pow2(most), longest),
{
    lemma_pow2_unfold(n + 1);
    assert(base * (2 * pow2(n)) == 2 * (base * pow2(n))) by (nonlinear_arith);
}

} // verus!
