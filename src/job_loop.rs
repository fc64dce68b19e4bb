use vstd::prelude::*;
use crate::span::Span;
use crate::timing::{sleep_for, truncate_period};

verus! {

/// Where a job's loop stands.
#[derive(Clone, Copy, Debug, PartialEq, Eq, Structural)]
pub enum Phase {
    /// Between cycles: the next sleep has not begun.
    Idle,
    /// Asleep until the wake-up, unless cancellation comes first.
    Sleeping,
    /// A run step is executing.
    Running,
    /// Cancellation was seen: the loop has ended for good.
    Finished,
}

/// What the loop does once its sleep has elapsed or its token was cancelled.
#[derive(Clone, Copy, Debug, PartialEq, Eq, Structural)]
pub enum Outcome {
    /// Invoke the job's plain run step.
    Run,
    /// Invoke the job's cancellable run step with a fresh child token.
    RunWithCancel,
    /// Leave the loop: no further run happens.
    Exit,
}

/// The abstract state of a job's loop.
pub struct LoopState {
    /// The period captured when the job was registered, in nanoseconds.
    pub period: nat,
    pub phase: Phase,
    /// How many run steps the loop has started.
    pub runs: nat,
}

/// One step of a job's loop, as the runtime that drives it reports it.
pub enum LoopEvent {
    /// A cycle begins at `now` (nanoseconds since the epoch).
    Begin { truncate: bool, now: nat },
    /// The race between the sleep and cancellation is decided.
    Settle { cancelled: bool, with_cancel: bool },
    /// The run step returned.
    End,
}

/// The state of a freshly registered job.
pub open spec fn initial_state(period: nat) -> LoopState {
    LoopState { period, phase: Phase::Idle, runs: 0 }
}

/// Cancellation wins the race whenever it has happened, even if the sleep has
/// elapsed as well; otherwise the job's chosen run step is invoked.
pub open spec fn race_outcome(cancelled: bool, with_cancel: bool) -> Outcome {
    if cancelled {
        Outcome::Exit
    } else if with_cancel {
        Outcome::RunWithCancel
    } else {
        Outcome::Run
    }
}

/// The effect of one event; an event that does not fit the phase changes nothing.
pub open spec fn apply(s: LoopState, e: LoopEvent) -> LoopState {
    match e {
        LoopEvent::Begin { .. } => {
            if s.phase == Phase::Idle {
                LoopState { phase: Phase::Sleeping, ..s }
            } else {
                s
            }
        },
        LoopEvent::Settle { cancelled, .. } => {
            if s.phase != Phase::Sleeping {
                s
            } else if cancelled {
                LoopState { phase: Phase::Finished, ..s }
            } else {
                LoopState { phase: Phase::Running, runs: s.runs + 1, ..s }
            }
        },
        LoopEvent::End => {
            if s.phase == Phase::Running {
                LoopState { phase: Phase::Idle, ..s }
            } else {
                s
            }
        },
    }
}

/// The state after the events, applied in order.
pub open spec fn run_trace(s: LoopState, events: Seq<LoopEvent>) -> LoopState
    decreases events.len(),
{
    if events.len() == 0 {
        s
    } else {
        run_trace(apply(s, events[0]), events.subrange(1, events.len() as int))
    }
}

/// Every race among the events found the token cancelled.
pub open spec fn all_cancelled(events: Seq<LoopEvent>) -> bool {
    forall|i: int|
        0 <= i < events.len() ==> (#[trigger] events[i] matches LoopEvent::Settle { cancelled, .. }
            ==> cancelled)
}

/// A loop that has seen cancellation stays finished, whatever is reported after.
pub proof fn lemma_finished_is_final(s: LoopState, events: Seq<LoopEvent>)
    requires
        s.phase == Phase::Finished,
    ensures
        run_trace(s, events) == s,
    decreases events.len(),
{
    if events.len() > 0 {
        lemma_finished_is_final(apply(s, events[0]), events.subrange(1, events.len() as int));
    }
}

/// Once every race finds the token cancelled, no further run begins: the count
/// of runs stays as it is, and a loop that is not running never runs again.
pub proof fn lemma_cancelled_runs_nothing(s: LoopState, events: Seq<LoopEvent>)
    requires
        all_cancelled(events),
    ensures
        run_trace(s, events).runs == s.runs,
        s.phase != Phase::Running ==> run_trace(s, events).phase != Phase::Running,
    decreases events.len(),
{
    if events.len() > 0 {
        let rest = events.subrange(1, events.len() as int);
        assert(all_cancelled(rest)) by {
            assert forall|i: int| 0 <= i < rest.len() implies (#[trigger] rest[i] matches LoopEvent::Settle { cancelled, .. } ==> cancelled) by {
                assert(rest[i] == events[i + 1]);
            }
        }
        assert(events[0] matches LoopEvent::Settle { cancelled, .. } ==> cancelled);
        lemma_cancelled_runs_nothing(apply(s, events[0]), rest);
    }
}

/// A job whose token is cancelled before any of its sleeps elapses never runs.
pub proof fn lemma_cancelled_before_wake_never_runs(period: nat, events: Seq<LoopEvent>)
    requires
        all_cancelled(events),
    ensures
        run_trace(initial_state(period), events).runs == 0,
        run_trace(initial_state(period), events).phase != Phase::Running,
{
    lemma_cancelled_runs_nothing(initial_state(period), events);
}

/// The loop of one registered job. The runtime performs what each method hands
/// back (sleep, run, exit) and reports the next event.
pub struct JobLoop {
    period: Span,
    phase: Phase,
    runs: Ghost<nat>,
}

impl View for JobLoop {
    type V = LoopState;

    closed spec fn view(&self) -> LoopState {
        LoopState { period: self.period@, phase: self.phase, runs: self.runs@ }
    }
}

impl JobLoop {
    #[verifier::type_invariant]
    spec fn positive_period(self) -> bool {
        self.period@ > 0
    }

    /// The loop of a job whose period is `period`, captured once here; `None`
    /// when the period is zero, which is a configuration error.
    pub fn new(period: Span) -> (r: Option<JobLoop>)
        ensures
            r is Some <==> period@ > 0,
            r matches Some(l) ==> l@ == initial_state(period@),
    {
        if period.is_zero() {
            None
        } else {
            Some(JobLoop { period, phase: Phase::Idle, runs: Ghost(0) })
        }
    }

    /// The period captured at registration.
    pub fn period(&self) -> (r: Span)
        ensures
            r@ == self@.period,
    {
        self.period
    }

    /// Where the loop stands.
    pub fn phase(&self) -> (r: Phase)
        ensures
            r == self@.phase,
    {
        self.phase
    }

    /// Begins a cycle at `now_nanos` (nanoseconds since the epoch) and returns
    /// how long to sleep: up to the next multiple of the period when `truncate`
    /// holds, one whole period otherwise.
    pub fn begin_cycle(&mut self, truncate: bool, now_nanos: u128) -> (r: Span)
        requires
            old(self)@.phase == Phase::Idle,
        ensures
            r@ == sleep_for(old(self)@.period, truncate, now_nanos as nat),
            final(self)@ == apply(old(self)@, LoopEvent::Begin { truncate, now: now_nanos as nat }),
    {
        proof {
            use_type_invariant(&*self);
        }
        self.phase = Phase::Sleeping;
        if truncate {
            truncate_period(self.period, now_nanos)
        } else {
            self.period
        }
    }

    /// Decides the race of the current cycle: `cancelled` tells whether the
    /// shared token was cancelled, `with_cancel` which run step the job wants.
    pub fn settle(&mut self, cancelled: bool, with_cancel: bool) -> (r: Outcome)
        requires
            old(self)@.phase == Phase::Sleeping,
        ensures
            r == race_outcome(cancelled, with_cancel),
            final(self)@ == apply(old(self)@, LoopEvent::Settle { cancelled, with_cancel }),
    {
        proof {
            use_type_invariant(&*self);
        }
        if cancelled {
            self.phase = Phase::Finished;
            Outcome::Exit
        } else {
            self.phase = Phase::Running;
            self.runs = Ghost(self.runs@ + 1);
            if with_cancel {
                Outcome::RunWithCancel
            } else {
                Outcome::Run
            }
        }
    }

    /// Records that the run step returned; the next cycle may begin.
    pub fn end_run(&mut self)
        requires
            old(self)@.phase == Phase::Running,
        ensures
            final(self)@ == apply(old(self)@, LoopEvent::End),
    {
        proof {
            use_type_invariant(&*self);
        }
        self.phase = Phase::Idle;
    }
}

} // verus!
