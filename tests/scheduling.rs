use async_periodic_job::job_loop::{JobLoop, Outcome, Phase};
use async_periodic_job::span::{Span, MAX_NANOS, NANOS_PER_SEC};
use async_periodic_job::timing::truncate_period;

fn nanos(n: u128) -> Span {
    Span::from_nanos(n).unwrap()
}

fn secs(s: u64) -> Span {
    Span::new(s, 0).unwrap()
}

#[test]
fn span_from_parts_is_exact() {
    let s = Span::new(3, 250).unwrap();
    assert_eq!(s.as_nanos(), 3_000_000_250);
    assert_eq!(s.as_secs(), 3);
    assert_eq!(s.subsec_nanos(), 250);
    assert!(!s.is_zero());
    assert!(Span::new(0, 0).unwrap().is_zero());
}

#[test]
fn span_rejects_a_whole_second_of_nanos() {
    assert!(Span::new(1, 1_000_000_000).is_none());
    assert!(Span::new(1, 999_999_999).is_some());
}

#[test]
fn span_range_matches_duration() {
    let max = Span::new(u64::MAX, 999_999_999).unwrap();
    assert_eq!(max.as_nanos(), MAX_NANOS);
    assert_eq!(max.as_secs(), u64::MAX);
    assert!(Span::from_nanos(MAX_NANOS).is_some());
    assert!(Span::from_nanos(MAX_NANOS + 1).is_none());
    assert_eq!(NANOS_PER_SEC, 1_000_000_000);
}

#[test]
fn truncation_reaches_next_multiple() {
    // period 4, now 11: sleep 4 - 11 % 4 = 1, waking at 12
    assert_eq!(truncate_period(nanos(4), 11).as_nanos(), 1);
    // on a boundary the sleep is a whole period
    assert_eq!(truncate_period(nanos(4), 12).as_nanos(), 4);
    assert_eq!(truncate_period(secs(1), 1_250_000_000).as_nanos(), 750_000_000);
    assert_eq!(truncate_period(secs(2), 0).as_nanos(), 2_000_000_000);
}

#[test]
fn truncation_with_largest_period() {
    let max = nanos(MAX_NANOS);
    assert_eq!(truncate_period(max, 5).as_nanos(), MAX_NANOS - 5);
    assert_eq!(truncate_period(max, MAX_NANOS + 3).as_nanos(), MAX_NANOS - 3);
}

#[test]
fn zero_period_is_refused() {
    assert!(JobLoop::new(nanos(0)).is_none());
    assert!(JobLoop::new(nanos(1)).is_some());
}

#[test]
fn period_is_captured_at_registration() {
    let l = JobLoop::new(secs(2)).unwrap();
    assert_eq!(l.period(), secs(2));
    assert_eq!(l.phase(), Phase::Idle);
}

#[test]
fn truncated_wakes_follow_period_multiples() {
    // period 4 starting at time 11: wakes at 12, 16, 20
    let mut l = JobLoop::new(nanos(4)).unwrap();
    let mut now: u128 = 11;
    let mut wakes = Vec::new();
    for _ in 0..3 {
        let sleep = l.begin_cycle(true, now);
        now += sleep.as_nanos();
        wakes.push(now);
        assert_eq!(l.settle(false, false), Outcome::Run);
        l.end_run();
    }
    assert_eq!(wakes, vec![12, 16, 20]);
}

#[test]
fn truncated_wakes_stay_aligned_after_slow_runs() {
    let mut l = JobLoop::new(nanos(10)).unwrap();
    let mut now: u128 = 3;
    for busy in [0u128, 7, 13, 25] {
        now += busy;
        now += l.begin_cycle(true, now).as_nanos();
        assert_eq!(now % 10, 0);
        l.settle(false, false);
        l.end_run();
    }
    assert_eq!(now, 70);
}

#[test]
fn untruncated_wakes_are_anchored_to_start() {
    let mut l = JobLoop::new(nanos(4)).unwrap();
    let mut now: u128 = 11;
    let mut wakes = Vec::new();
    for _ in 0..3 {
        now += l.begin_cycle(false, now).as_nanos();
        wakes.push(now);
        l.settle(false, false);
        l.end_run();
    }
    assert_eq!(wakes, vec![15, 19, 23]);
}

#[test]
fn cancelled_before_first_wake_never_runs() {
    let mut l = JobLoop::new(secs(1)).unwrap();
    l.begin_cycle(true, 0);
    assert_eq!(l.phase(), Phase::Sleeping);
    assert_eq!(l.settle(true, false), Outcome::Exit);
    assert_eq!(l.phase(), Phase::Finished);
}

#[test]
fn cancellation_wins_over_elapsed_sleep() {
    let mut l = JobLoop::new(secs(1)).unwrap();
    l.begin_cycle(false, 0);
    assert_eq!(l.settle(true, true), Outcome::Exit);
    assert_eq!(l.phase(), Phase::Finished);
}

#[test]
fn two_jobs_run_by_their_own_periods() {
    // jobs with periods 1 and 3 units, watched until 3.5 units
    let unit: u128 = 1_000_000_000;
    let horizon = 3 * unit + unit / 2;
    let mut counts = Vec::new();
    for p in [1u64, 3] {
        let mut l = JobLoop::new(secs(p)).unwrap();
        let mut now: u128 = 0;
        let mut runs = 0;
        loop {
            let wake = now + l.begin_cycle(true, now).as_nanos();
            if wake > horizon {
                break;
            }
            assert_eq!(l.settle(false, false), Outcome::Run);
            runs += 1;
            l.end_run();
            now = wake;
        }
        counts.push(runs);
    }
    assert!(counts[0] >= 3);
    assert_eq!(counts[1], 1);
}

#[test]
fn cancellable_run_returns_before_loop_exits() {
    let mut l = JobLoop::new(secs(1)).unwrap();
    l.begin_cycle(true, 500);
    assert_eq!(l.settle(false, true), Outcome::RunWithCancel);
    // the run step is in flight until it observes its token and returns
    assert_eq!(l.phase(), Phase::Running);
    l.end_run();
    assert_eq!(l.phase(), Phase::Idle);
    l.begin_cycle(true, 1_000_000_000);
    assert_eq!(l.settle(true, true), Outcome::Exit);
    assert_eq!(l.phase(), Phase::Finished);
}
