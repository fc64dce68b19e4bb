use vstd::prelude::*;
use vstd::arithmetic::div_mod::{lemma_fundamental_div_mod, lemma_mod_multiples_basic, lemma_mod_pos_bound};
use crate::span::Span;

verus! {

/// The wait from `now` to the first multiple of `period` strictly after it.
pub open spec fn truncated_sleep(period: nat, now: nat) -> nat
    recommends
        period > 0,
{
    (period - now % period) as nat
}

/// The sleep of one cycle that starts at `now`: aligned to the period's
/// multiples when `truncate` holds, one whole period otherwise.
pub open spec fn sleep_for(period: nat, truncate: bool, now: nat) -> nat {
    if truncate {
        truncated_sleep(period, now)
    } else {
        period
    }
}

/// When a cycle that starts at `now` wakes up.
pub open spec fn next_wake(period: nat, truncate: bool, now: nat) -> nat {
    now + sleep_for(period, truncate, now)
}

/// The time of wake-up number `k` (counted from 0) of a loop that starts at
/// `start`, where the run after wake-up `i` keeps the loop busy for `busy[i]`
/// before its next cycle begins.
pub open spec fn wake_at(period: nat, truncate: bool, start: nat, busy: Seq<nat>, k: nat) -> nat
    decreases k,
{
    if k == 0 {
        next_wake(period, truncate, start)
    } else {
        let prev = wake_at(period, truncate, start, busy, (k - 1) as nat);
        next_wake(period, truncate, prev + busy[k - 1])
    }
}

/// The time that the first `k` runs take together.
pub open spec fn busy_total(busy: Seq<nat>, k: nat) -> nat
    decreases k,
{
    if k == 0 {
        0
    } else {
        busy_total(busy, (k - 1) as nat) + busy[k - 1]
    }
}

/// The sleep that takes a cycle starting at `now_nanos` (nanoseconds since the
/// epoch) to the next multiple of `period` since the epoch.
pub fn truncate_period(period: Span, now_nanos: u128) -> (r: Span)
    requires
        period@ > 0,
    ensures
        r@ == truncated_sleep(period@, now_nanos as nat),
{
    let p = period.as_nanos();
    let nanos = p - now_nanos % p;
    Span::from_nanos(nanos).unwrap()
}

/// A truncated sleep is at most one period long and ends on the first multiple
/// of the period after `now`.
pub proof fn lemma_truncated_wake_aligned(period: nat, now: nat)
    requires
        period > 0,
    ensures
        0 < truncated_sleep(period, now) <= period,
        next_wake(period, true, now) == (now / period + 1) * period,
        next_wake(period, true, now) % period == 0,
{
    let p = period as int;
    let q = (now as int) / p;
    lemma_fundamental_div_mod(now as int, p);
    lemma_mod_pos_bound(now as int, p);
    assert((q + 1) * p == p * q + p) by (nonlinear_arith);
    lemma_mod_multiples_basic(q + 1, p);
}

/// With truncation on, every wake-up of the loop falls on a multiple of the
/// period since the epoch, however long the runs before it took, and comes at
/// most one period after its cycle began.
pub proof fn lemma_truncated_wakes_aligned(period: nat, start: nat, busy: Seq<nat>, k: nat)
    requires
        period > 0,
    ensures
        wake_at(period, true, start, busy, k) % period == 0,
        k == 0 ==> start < wake_at(period, true, start, busy, k) <= start + period,
        k > 0 ==> {
            let begun = wake_at(period, true, start, busy, (k - 1) as nat) + busy[k - 1];
            begun < wake_at(period, true, start, busy, k) <= begun + period
        },
{
    if k == 0 {
        lemma_truncated_wake_aligned(period, start);
    } else {
        let begun = wake_at(period, true, start, busy, (k - 1) as nat) + busy[k - 1];
        lemma_truncated_wake_aligned(period, begun);
    }
}

/// With truncation off, wake-up number `k` comes exactly `k + 1` periods after
/// the loop started, plus the time the runs before it took: the wake-ups are
/// anchored to the loop's start, not to the epoch.
pub proof fn lemma_untruncated_wakes_anchored(period: nat, start: nat, busy: Seq<nat>, k: nat)
    ensures
        wake_at(period, false, start, busy, k) == start + (k + 1) * period + busy_total(busy, k),
    decreases k,
{
    if k > 0 {
        lemma_untruncated_wakes_anchored(period, start, busy, (k - 1) as nat);
        assert((k + 1) * period == k * period + period) by (nonlinear_arith);
    } else {
        assert((k + 1) * period == period) by (nonlinear_arith)
            requires
                k == 0,
        ;
    }
}

} // verus!
