//! The rule of the token bucket that the replicas share, in whole numbers.
//!
//! What Redis runs is a script that follows the same rule in floating point. Nothing
//! here speaks of that script: it stands where Redis is called, and no proof ties it
//! to this rule.
//!
//! A bucket holds at most `capacity` tokens and gains one every `refill_seconds`.
//! What it holds is counted in credits, of which a full token takes as many as it
//! takes milliseconds to gain one, so that no fraction of a token is ever lost.

use vstd::prelude::*;

verus! {

/// What is kept of a bucket.
#[derive(Debug, PartialEq, Eq, Structural, Clone, Copy)]
pub struct Bucket {
    /// What the bucket holds, in credits.
    pub credits: u128,
    /// When that was counted, in milliseconds.
    pub counted_at: u64,
}

/// How many credits make a token. With nothing to wait for, each is one.
pub open spec fn token_credits(refill_seconds: u64) -> int {
    if refill_seconds == 0 {
        1
    } else {
        refill_seconds * 1_000
    }
}

/// How many credits a full bucket holds.
pub open spec fn full_credits(capacity: u32, refill_seconds: u64) -> int {
    capacity * token_credits(refill_seconds)
}

/// What a bucket holds at a given time, before anything is taken out. A bucket
/// that nothing is kept of is full. Time that went backwards counts for nothing.
pub open spec fn refilled(
    bucket: Option<Bucket>,
    capacity: u32,
    refill_seconds: u64,
    now: u64,
) -> (int, u64) {
    let full = full_credits(capacity, refill_seconds);
    match bucket {
        None => (full, now),
        Some(kept) => if now <= kept.counted_at {
            (kept.credits as int, kept.counted_at)
        } else if refill_seconds == 0 || kept.credits + (now - kept.counted_at) >= full {
            (full, now)
        } else {
            (kept.credits + (now - kept.counted_at), now)
        },
    }
}

/// Whether a token can be taken out of a bucket at a given time.
pub open spec fn has_token(
    bucket: Option<Bucket>,
    capacity: u32,
    refill_seconds: u64,
    now: u64,
) -> bool {
    refilled(bucket, capacity, refill_seconds, now).0 >= token_credits(refill_seconds)
}

/// What a bucket holds after a token was asked for at a given time.
pub open spec fn drained(
    bucket: Option<Bucket>,
    capacity: u32,
    refill_seconds: u64,
    now: u64,
) -> Bucket {
    let (credits, counted_at) = refilled(bucket, capacity, refill_seconds, now);
    let left = if credits >= token_credits(refill_seconds) {
        credits - token_credits(refill_seconds)
    } else {
        credits
    };
    Bucket { credits: left as u128, counted_at }
}

/// What asking for a token comes to.
#[derive(Debug, PartialEq, Eq, Structural, Clone, Copy)]
pub struct Taken {
    /// Whether a token was taken.
    pub allowed: bool,
    /// What is kept of the bucket.
    pub bucket: Bucket,
    /// For how many milliseconds it has to be kept.
    pub expires_in: u128,
}

/// Asks for a token out of a bucket at a given time.
pub fn take(bucket: Option<Bucket>, capacity: u32, refill_seconds: u64, now: u64) -> (taken: Taken)
    ensures
        taken.allowed == has_token(bucket, capacity, refill_seconds, now),
        taken.bucket == drained(bucket, capacity, refill_seconds, now),
        taken.expires_in == capacity * (refill_seconds * 1_000),
{
    let refill_ms: u128 = refill_seconds as u128 * 1_000;
    let token: u128 = if refill_seconds == 0 {
        1
    } else {
        refill_ms
    };
    proof {
        assert(capacity * token <= 0xffff_ffff * (0xffff_ffff_ffff_ffff * 1_000))
            by (nonlinear_arith)
            requires
                0 <= capacity <= 0xffff_ffff,
                0 <= token <= 0xffff_ffff_ffff_ffff * 1_000,
        ;
        assert(capacity * refill_ms <= 0xffff_ffff * (0xffff_ffff_ffff_ffff * 1_000))
            by (nonlinear_arith)
            requires
                0 <= capacity <= 0xffff_ffff,
                0 <= refill_ms <= 0xffff_ffff_ffff_ffff * 1_000,
        ;
        assert(0 <= capacity * token) by (nonlinear_arith)
            requires
                0 <= capacity,
                0 <= token,
        ;
    }
    let full: u128 = capacity as u128 * token;
    let expires_in: u128 = capacity as u128 * refill_ms;
    let (credits, counted_at): (u128, u64) = match bucket {
        None => (full, now),
        Some(kept) => {
            if now <= kept.counted_at {
                (kept.credits, kept.counted_at)
            } else {
                let elapsed = (now - kept.counted_at) as u128;
                if refill_seconds == 0 || kept.credits >= full || elapsed >= full - kept.credits {
                    (full, now)
                } else {
                    (kept.credits + elapsed, now)
                }
            }
        },
    };
    let allowed = credits >= token;
    let left = if allowed {
        credits - token
    } else {
        credits
    };
    Taken { allowed, bucket: Bucket { credits: left, counted_at }, expires_in }
}

/// The credits of a full bucket fit into 128 bits, and a token is worth something.
pub proof fn lemma_full_is_small(capacity: u32, refill_seconds: u64)
    ensures
        0 < token_credits(refill_seconds),
        0 <= full_credits(capacity, refill_seconds) <= u128::MAX,
{
    let token = token_credits(refill_seconds);
    assert(0 <= capacity * token <= 0xffff_ffff * (0xffff_ffff_ffff_ffff * 1_000))
        by (nonlinear_arith)
        requires
            0 <= capacity <= 0xffff_ffff,
            0 <= token <= 0xffff_ffff_ffff_ffff * 1_000,
    ;
}

/// A bucket never holds more than its capacity.
pub proof fn law_bucket_never_overflows(
    bucket: Option<Bucket>,
    capacity: u32,
    refill_seconds: u64,
    now: u64,
)
    requires
        bucket is Some ==> bucket->0.credits <= full_credits(capacity, refill_seconds),
    ensures
        drained(bucket, capacity, refill_seconds, now).credits <= full_credits(
            capacity,
            refill_seconds,
        ),
{
    lemma_full_is_small(capacity, refill_seconds);
}

/// A new bucket after some tokens were taken out of it at once.
pub open spec fn after_burst(capacity: u32, refill_seconds: u64, now: u64, taken: nat) -> Option<
    Bucket,
>
    decreases taken,
{
    if taken == 0 {
        None
    } else {
        Some(
            drained(
                after_burst(capacity, refill_seconds, now, (taken - 1) as nat),
                capacity,
                refill_seconds,
                now,
            ),
        )
    }
}

/// Out of a new bucket exactly as many tokens can be taken at once as it holds.
pub proof fn law_burst_is_granted(capacity: u32, refill_seconds: u64, now: u64, taken: nat)
    requires
        taken <= capacity,
    ensures
        has_token(after_burst(capacity, refill_seconds, now, taken), capacity, refill_seconds, now)
            <==> taken < capacity,
        refilled(
            after_burst(capacity, refill_seconds, now, taken),
            capacity,
            refill_seconds,
            now,
        ) == ((capacity - taken) * token_credits(refill_seconds), now),
    decreases taken,
{
    let token = token_credits(refill_seconds);
    lemma_full_is_small(capacity, refill_seconds);
    if taken > 0 {
        law_burst_is_granted(capacity, refill_seconds, now, (taken - 1) as nat);
        assert((capacity - taken) * token + token == (capacity - (taken - 1)) * token)
            by (nonlinear_arith);
        assert(0 <= (capacity - taken) * token <= capacity * token) by (nonlinear_arith)
            requires
                0 <= taken <= capacity,
                0 < token,
        ;
    }
    assert((capacity - taken) * token >= token <==> taken < capacity) by (nonlinear_arith)
        requires
            0 <= taken <= capacity,
            0 < token,
    ;
}

/// What is kept of a bucket after a token was asked for at each of some times.
pub open spec fn after_requests(
    bucket: Option<Bucket>,
    capacity: u32,
    refill_seconds: u64,
    times: Seq<u64>,
) -> Option<Bucket>
    decreases times.len(),
{
    if times.len() == 0 {
        bucket
    } else {
        Some(
            drained(
                after_requests(bucket, capacity, refill_seconds, times.drop_last()),
                capacity,
                refill_seconds,
                times.last(),
            ),
        )
    }
}

/// How many of these requests were granted.
pub open spec fn granted(
    bucket: Option<Bucket>,
    capacity: u32,
    refill_seconds: u64,
    times: Seq<u64>,
) -> nat
    decreases times.len(),
{
    if times.len() == 0 {
        0
    } else {
        let before = times.drop_last();
        granted(bucket, capacity, refill_seconds, before) + if has_token(
            after_requests(bucket, capacity, refill_seconds, before),
            capacity,
            refill_seconds,
            times.last(),
        ) {
            1nat
        } else {
            0nat
        }
    }
}

/// By how much the time when a bucket was counted lies inside a window.
spec fn time_into(counted_at: u64, start: u64, length: nat) -> int {
    if counted_at < start {
        0
    } else if counted_at > start + length {
        length as int
    } else {
        counted_at - start
    }
}

proof fn lemma_grants_are_paid_for(
    bucket: Option<Bucket>,
    capacity: u32,
    refill_seconds: u64,
    times: Seq<u64>,
    start: u64,
    length: nat,
)
    requires
        refill_seconds > 0,
        bucket is Some ==> bucket->0.credits <= full_credits(capacity, refill_seconds),
        forall|i: int| 0 <= i < times.len() ==> start <= #[trigger] times[i] <= start + length,
    ensures
        ({
            let end = after_requests(bucket, capacity, refill_seconds, times);
            let paid = granted(bucket, capacity, refill_seconds, times) * token_credits(
                refill_seconds,
            );
            &&& times.len() == 0 ==> paid == 0
            &&& end is Some ==> end->0.credits <= full_credits(capacity, refill_seconds)
            &&& times.len() > 0 ==> end is Some && end->0.counted_at >= start
            &&& times.len() > 0 ==> paid + end->0.credits <= full_credits(capacity, refill_seconds)
                + time_into(end->0.counted_at, start, length)
        }),
    decreases times.len(),
{
    lemma_full_is_small(capacity, refill_seconds);
    let token = token_credits(refill_seconds);
    if times.len() == 0 {
        assert(granted(bucket, capacity, refill_seconds, times) * token == 0) by (nonlinear_arith)
            requires
                granted(bucket, capacity, refill_seconds, times) == 0,
        ;
    } else {
        let before = times.drop_last();
        assert forall|i: int| 0 <= i < before.len() implies start <= #[trigger] before[i] <= start
            + length by {
            assert(before[i] == times[i]);
        }
        lemma_grants_are_paid_for(bucket, capacity, refill_seconds, before, start, length);
        let kept = after_requests(bucket, capacity, refill_seconds, before);
        assert(start <= times[times.len() - 1] <= start + length);
        law_bucket_never_overflows(kept, capacity, refill_seconds, times.last());
        let n = granted(bucket, capacity, refill_seconds, before);
        assert((n + 1) * token == n * token + token) by (nonlinear_arith);
    }
}

/// In any window of time a bucket grants at most as many tokens as it can hold and
/// gains in the window, whether it is new or was used before, and whatever the order
/// in which the requests reach it.
pub proof fn law_grants_keep_to_the_rate(
    bucket: Option<Bucket>,
    capacity: u32,
    refill_seconds: u64,
    times: Seq<u64>,
    start: u64,
    milliseconds: nat,
)
    requires
        refill_seconds > 0,
        bucket is Some ==> bucket->0.credits <= full_credits(capacity, refill_seconds),
        forall|i: int|
            0 <= i < times.len() ==> start <= #[trigger] times[i] <= start + milliseconds,
    ensures
        granted(bucket, capacity, refill_seconds, times) <= capacity + milliseconds as int / (1_000
            * refill_seconds),
{
    lemma_grants_are_paid_for(bucket, capacity, refill_seconds, times, start, milliseconds);
    lemma_full_is_small(capacity, refill_seconds);
    let token = token_credits(refill_seconds);
    let n = granted(bucket, capacity, refill_seconds, times) as int;
    let extra = milliseconds as int / token;
    assert(n <= capacity + extra) by (nonlinear_arith)
        requires
            0 < token,
            0 <= milliseconds,
            n * token <= capacity * token + milliseconds,
            extra == milliseconds as int / token,
    ;
}

/// Once a bucket may be forgotten it would be full anyway.
pub proof fn law_forgetting_changes_nothing(
    bucket: Bucket,
    capacity: u32,
    refill_seconds: u64,
    now: u64,
)
    requires
        refill_seconds > 0,
        capacity > 0,
        now - bucket.counted_at >= capacity * (refill_seconds * 1_000),
    ensures
        refilled(Some(bucket), capacity, refill_seconds, now) == refilled(
            None,
            capacity,
            refill_seconds,
            now,
        ),
{
    lemma_full_is_small(capacity, refill_seconds);
    assert(capacity * (refill_seconds * 1_000) > 0) by (nonlinear_arith)
        requires
            capacity > 0,
            refill_seconds > 0,
    ;
}

/// A token is worth the milliseconds that it takes to gain one, and a full bucket as
/// much as all its tokens. A bucket that nothing is kept of is full. One that is kept
/// gains a credit every millisecond until it is full, and is full at once where there
/// is nothing to wait for; time that went backwards neither adds nor takes anything.
pub proof fn law_bucket_fills_with_time(
    kept: Bucket,
    capacity: u32,
    refill_seconds: u64,
    now: u64,
)
    ensures
        ({
            let token = token_credits(refill_seconds);
            let full = capacity * token;
            let held = refilled(Some(kept), capacity, refill_seconds, now);
            &&& refill_seconds > 0 ==> token == 1_000 * refill_seconds
            &&& refill_seconds == 0 ==> token == 1
            &&& refilled(None, capacity, refill_seconds, now) == (full, now)
            &&& now <= kept.counted_at ==> held == (kept.credits as int, kept.counted_at)
            &&& now > kept.counted_at ==> held.1 == now
            &&& now > kept.counted_at && refill_seconds == 0 ==> held.0 == full
            &&& now > kept.counted_at && refill_seconds > 0 ==> held.0 <= full && held.0
                <= kept.credits + (now - kept.counted_at) && (held.0 == full || held.0
                == kept.credits + (now - kept.counted_at))
        }),
{
}

/// A token is granted exactly where a bucket holds one, and then exactly one leaves it;
/// a request that is refused takes nothing.
pub proof fn law_one_token_is_taken(
    bucket: Option<Bucket>,
    capacity: u32,
    refill_seconds: u64,
    now: u64,
)
    requires
        bucket is Some ==> bucket->0.credits <= full_credits(capacity, refill_seconds),
    ensures
        ({
            let (held, counted_at) = refilled(bucket, capacity, refill_seconds, now);
            let token = token_credits(refill_seconds);
            let left = drained(bucket, capacity, refill_seconds, now);
            &&& has_token(bucket, capacity, refill_seconds, now) <==> held >= token
            &&& held >= token ==> left.credits == held - token
            &&& held < token ==> left.credits == held
            &&& left.counted_at == counted_at
        }),
{
    lemma_full_is_small(capacity, refill_seconds);
}

/// Who is refused is granted a token again as soon as the bucket has gained what it
/// lacked, and not before.
pub proof fn law_refused_is_granted_later(
    bucket: Bucket,
    capacity: u32,
    refill_seconds: u64,
    now: u64,
    later: u64,
)
    requires
        refill_seconds > 0,
        capacity > 0,
        bucket.credits <= full_credits(capacity, refill_seconds),
        bucket.counted_at <= now <= later,
        !has_token(Some(bucket), capacity, refill_seconds, now),
    ensures
        has_token(
            Some(drained(Some(bucket), capacity, refill_seconds, now)),
            capacity,
            refill_seconds,
            later,
        ) <==> bucket.credits + (later - bucket.counted_at) >= 1_000 * refill_seconds,
{
    lemma_full_is_small(capacity, refill_seconds);
    let token = token_credits(refill_seconds);
    assert(capacity * token >= token) by (nonlinear_arith)
        requires
            capacity > 0,
            token > 0,
    ;
}

}
