//! The token bucket: refill by elapsed time, then admit by spending a token.
use crate::state::{Bucket, Policy, ValveError};
use vstd::arithmetic::div_mod::{lemma_div_by_multiple, lemma_div_is_ordered};
use vstd::arithmetic::mul::lemma_mul_inequality;
use vstd::prelude::*;

verus! {

/// Seconds from `last_ts` to `now`; a clock that went back counts as zero.
pub open spec fn elapsed(last_ts: int, now: int) -> nat {
    if now > last_ts {
        (now - last_ts) as nat
    } else {
        0
    }
}

/// Tokens after `elapsed` seconds: `min(max_reqs, tokens + floor(max_reqs * elapsed / period))`.
pub open spec fn refill(max_reqs: nat, period: nat, tokens: nat, elapsed: nat) -> nat
    recommends
        period > 0,
{
    let gained = (max_reqs * elapsed) as int / period as int;
    if tokens + gained < max_reqs {
        (tokens + gained) as nat
    } else {
        max_reqs
    }
}

/// Tokens of `b` once refilled at `now` under `p`.
pub open spec fn refilled(p: Policy, b: Bucket, now: i64) -> nat {
    refill(p.max_reqs as nat, p.period as nat, b.tokens as nat, elapsed(b.last_ts as int, now as int))
}

/// Whether a check at `now` admits.
pub open spec fn admits(p: Policy, b: Bucket, now: i64) -> bool {
    refilled(p, b, now) > 0
}

/// The bucket after a check at `now`, admitted or not.
pub open spec fn after_check(p: Policy, b: Bucket, now: i64) -> Bucket {
    Bucket {
        policy: b.policy,
        owner: b.owner,
        tokens: (if admits(p, b, now) {
            refilled(p, b, now) - 1
        } else {
            refilled(p, b, now) as int
        }) as u32,
        last_ts: now,
    }
}

/// What a check at `now` returns.
pub open spec fn check_result(p: Policy, b: Bucket, now: i64) -> Result<(), ValveError> {
    if admits(p, b, now) {
        Ok(())
    } else {
        Err(ValveError::TooManyRequests)
    }
}

/// Seconds from `last_ts` to `now`, zero where the clock went back.
pub fn elapsed_secs(last_ts: i64, now: i64) -> (r: u64)
    ensures
        r as nat == elapsed(last_ts as int, now as int),
{
    if now > last_ts {
        (now as i128 - last_ts as i128) as u64
    } else {
        0
    }
}

/// The token count after `elapsed` seconds.
pub fn refill_tokens(max_reqs: u32, period: u32, tokens: u32, elapsed: u64) -> (r: u32)
    requires
        period > 0,
    ensures
        r as nat == refill(max_reqs as nat, period as nat, tokens as nat, elapsed as nat),
{
    assert(max_reqs as u128 * elapsed as u128 <= 0xffff_ffff * 0xffff_ffff_ffff_ffffu128)
        by (nonlinear_arith)
        requires
            max_reqs <= 0xffff_ffff,
            elapsed <= 0xffff_ffff_ffff_ffffu64,
    ;
    let product: u128 = max_reqs as u128 * elapsed as u128;
    let gained: u128 = product / period as u128;
    assert(gained <= product) by (nonlinear_arith)
        requires
            gained == product / period as u128,
            period > 0,
    ;
    let total: u128 = tokens as u128 + gained;
    if total < max_reqs as u128 {
        total as u32
    } else {
        max_reqs
    }
}

/// Refills `bucket` at `now`, then spends one token if there is one.
/// The refill and the new timestamp are kept whether or not it admits.
pub fn check(bucket: &mut Bucket, policy: &Policy, now: i64) -> (r: Result<(), ValveError>)
    requires
        policy.period > 0,
    ensures
        *final(bucket) == after_check(*policy, *old(bucket), now),
        r == check_result(*policy, *old(bucket), now),
{
    let el = elapsed_secs(bucket.last_ts, now);
    bucket.last_ts = now;
    bucket.tokens = refill_tokens(policy.max_reqs, policy.period, bucket.tokens, el);
    if bucket.tokens > 0 {
        bucket.tokens = bucket.tokens - 1;
        Ok(())
    } else {
        Err(ValveError::TooManyRequests)
    }
}

/// A refill never exceeds the capacity, never loses tokens of a bucket within
/// its capacity, and never gives fewer tokens for a longer wait.
pub proof fn refill_law(max_reqs: nat, period: nat, tokens: nat, e1: nat, e2: nat)
    requires
        period > 0,
        e1 <= e2,
    ensures
        refill(max_reqs, period, tokens, e1) <= max_reqs,
        tokens <= max_reqs ==> refill(max_reqs, period, tokens, e1) >= tokens,
        refill(max_reqs, period, tokens, e1) <= refill(max_reqs, period, tokens, e2),
{
    lemma_mul_inequality(e1 as int, e2 as int, max_reqs as int);
    assert(max_reqs * e1 <= max_reqs * e2) by (nonlinear_arith)
        requires
            e1 * max_reqs <= e2 * max_reqs,
    ;
    lemma_div_is_ordered((max_reqs * e1) as int, (max_reqs * e2) as int, period as int);
    assert(0 <= (max_reqs * e1) as int / period as int) by (nonlinear_arith)
        requires
            period > 0,
    ;
}

/// A bucket left alone for at least one period is full again, whatever it
/// held: the next check admits exactly when the capacity is positive and
/// leaves one token less than the capacity.
pub proof fn refills_after_period(p: Policy, b: Bucket, now: i64)
    requires
        p.period > 0,
        now as int - b.last_ts as int >= p.period as int,
    ensures
        refilled(p, b, now) == p.max_reqs as nat,
        admits(p, b, now) == (p.max_reqs > 0),
        p.max_reqs > 0 ==> after_check(p, b, now).tokens == p.max_reqs - 1,
        after_check(p, b, now).last_ts == now,
{
    let e = elapsed(b.last_ts as int, now as int);
    let m = p.max_reqs as int;
    let d = p.period as int;
    lemma_mul_inequality(d, e as int, m);
    assert(m * d <= m * e) by (nonlinear_arith)
        requires
            d * m <= e * m,
    ;
    lemma_div_is_ordered(m * d, m * e, d);
    lemma_div_by_multiple(m, d);
}

/// `n` checks at one instant, starting from `b`.
pub open spec fn checks_at(p: Policy, b: Bucket, now: i64, n: nat) -> Bucket
    decreases n,
{
    if n == 0 {
        b
    } else {
        after_check(p, checks_at(p, b, now, (n - 1) as nat), now)
    }
}

proof fn checks_at_drain(p: Policy, b: Bucket, now: i64, k: nat)
    requires
        p.period > 0,
        b.tokens == p.max_reqs,
        b.last_ts == now,
        k <= p.max_reqs,
    ensures
        checks_at(p, b, now, k).tokens == p.max_reqs - k,
        checks_at(p, b, now, k).last_ts == now,
    decreases k,
{
    if k > 0 {
        checks_at_drain(p, b, now, (k - 1) as nat);
        let prev = checks_at(p, b, now, (k - 1) as nat);
        assert(elapsed(prev.last_ts as int, now as int) == 0);
        assert(p.max_reqs as nat * 0 == 0);
    }
}

/// A full bucket checked again and again at one instant admits exactly as
/// many checks as its capacity, is then empty, and refuses the next one.
pub proof fn full_bucket_admits_capacity(p: Policy, b: Bucket, now: i64)
    requires
        p.period > 0,
        b.tokens == p.max_reqs,
        b.last_ts == now,
    ensures
        forall|k: nat| k < p.max_reqs ==> #[trigger] admits(p, checks_at(p, b, now, k), now),
        checks_at(p, b, now, p.max_reqs as nat).tokens == 0,
        !admits(p, checks_at(p, b, now, p.max_reqs as nat), now),
        check_result(p, checks_at(p, b, now, p.max_reqs as nat), now) == Err::<(), ValveError>(
            ValveError::TooManyRequests,
        ),
{
    assert forall|k: nat| k < p.max_reqs implies #[trigger] admits(p, checks_at(p, b, now, k), now) by {
        checks_at_drain(p, b, now, k);
        assert(p.max_reqs as nat * 0 == 0);
    }
    checks_at_drain(p, b, now, p.max_reqs as nat);
    assert(p.max_reqs as nat * 0 == 0);
}

} // verus!
