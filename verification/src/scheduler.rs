//! The rotation scheduler: a strictly sequential cycle of discovering the
//! active outputs, applying wallpapers to them, and waiting for the next
//! round.
//!
//! Discovery failures are absorbed by an unbounded fixed-delay retry;
//! apply failures are fatal. The wait races the rotation period against a
//! skip interrupt, either of which re-enters discovery; a skip arriving in
//! any other phase has no observable effect. Without a rotation period
//! the scheduler stops after its single cycle. Timers, I/O and signal
//! delivery happen outside; this machine owns every decision between
//! them.

use vstd::prelude::*;
use crate::monitors::DiscoveryError;
use crate::render::ApplyError;

verus! {

/// The fixed delay before a failed discovery is retried, in milliseconds.
pub const RETRY_DELAY_MS: u64 = 5000;

/// The scheduler's phase. Exactly one rotation is ever in flight: the
/// phases follow each other strictly and never overlap.
#[derive(Clone, Copy, PartialEq, Eq, Structural, Debug)]
pub enum Phase {
    /// Asking the monitor source for the active outputs.
    Discovering,
    /// Sitting out the retry delay after a failed discovery.
    Backoff,
    /// The renderer is applying this cycle's wallpapers.
    Applying,
    /// Racing the rotation period against a skip interrupt.
    Waiting,
    /// The scheduler has stopped.
    Finished,
}

/// What the surrounding binary reports back to the scheduler.
#[derive(Debug)]
pub enum SchedEvent {
    /// The monitor source answered, with the active outputs or a failure.
    Discovered(Result<Vec<String>, DiscoveryError>),
    /// The retry delay elapsed.
    DelayElapsed,
    /// The renderer finished this cycle's apply.
    Applied(Result<(), ApplyError>),
    /// The rotation period elapsed.
    PeriodElapsed,
    /// A skip interrupt arrived.
    Skip,
}

/// What the surrounding binary is to do next.
#[derive(Debug)]
pub enum SchedAction {
    /// Ask the monitor source for the active outputs.
    Discover,
    /// Sleep for the given number of milliseconds, then report back.
    Sleep(u64),
    /// Select one wallpaper per output and run the renderer on this list.
    Apply(Vec<String>),
    /// Wait for the period or a skip interrupt, whichever comes first.
    Wait(u64),
    /// Stop; the flag tells a clean one-shot finish from a fatal apply
    /// failure.
    Stop(bool),
}

/// The next phase. Only a successful discovery enters `Applying`; a
/// failed one backs off for the fixed delay and retries, without bound.
/// A successful apply waits out the period, or finishes the run when no
/// period is configured; a failed apply is fatal. A skip interrupt
/// re-enters discovery from `Waiting` alone. Events that do not belong to
/// the current phase change nothing.
pub open spec fn sched_next_phase(ph: Phase, period_ms: Option<u64>, ev: SchedEvent) -> Phase {
    match (ph, ev) {
        (Phase::Discovering, SchedEvent::Discovered(Ok(_))) => Phase::Applying,
        (Phase::Discovering, SchedEvent::Discovered(Err(_))) => Phase::Backoff,
        (Phase::Backoff, SchedEvent::DelayElapsed) => Phase::Discovering,
        (Phase::Applying, SchedEvent::Applied(Ok(_))) => if period_ms is Some {
            Phase::Waiting
        } else {
            Phase::Finished
        },
        (Phase::Applying, SchedEvent::Applied(Err(_))) => Phase::Finished,
        (Phase::Waiting, SchedEvent::PeriodElapsed) => Phase::Discovering,
        (Phase::Waiting, SchedEvent::Skip) => Phase::Discovering,
        _ => ph,
    }
}

/// The action accompanying each transition; events that do not belong to
/// the current phase produce none, leaving the in-flight step undisturbed.
pub open spec fn sched_action(ph: Phase, period_ms: Option<u64>, ev: SchedEvent) -> Option<
    SchedAction,
> {
    match (ph, ev) {
        (Phase::Discovering, SchedEvent::Discovered(Ok(outs))) => Some(SchedAction::Apply(outs)),
        (Phase::Discovering, SchedEvent::Discovered(Err(_))) => Some(
            SchedAction::Sleep(RETRY_DELAY_MS),
        ),
        (Phase::Backoff, SchedEvent::DelayElapsed) => Some(SchedAction::Discover),
        (Phase::Applying, SchedEvent::Applied(Ok(_))) => if period_ms is Some {
            Some(SchedAction::Wait(period_ms->0))
        } else {
            Some(SchedAction::Stop(true))
        },
        (Phase::Applying, SchedEvent::Applied(Err(_))) => Some(SchedAction::Stop(false)),
        (Phase::Waiting, SchedEvent::PeriodElapsed) => Some(SchedAction::Discover),
        (Phase::Waiting, SchedEvent::Skip) => Some(SchedAction::Discover),
        _ => None,
    }
}

/// The rotation scheduler for one run.
pub struct Scheduler {
    phase: Phase,
    period_ms: Option<u64>,
}

impl Scheduler {
    /// The current phase.
    pub closed spec fn spec_phase(self) -> Phase {
        self.phase
    }

    /// The configured rotation period; its absence means one-shot mode.
    pub closed spec fn spec_period_ms(self) -> Option<u64> {
        self.period_ms
    }

    /// A fresh scheduler, about to discover for its first cycle; its
    /// first action is `Discover`.
    pub fn new(period_ms: Option<u64>) -> (s: Scheduler)
        ensures
            s.spec_phase() == Phase::Discovering,
            s.spec_period_ms() == period_ms,
    {
        Scheduler { phase: Phase::Discovering, period_ms }
    }

    /// The current phase, for callers that inspect the run's progress.
    pub fn phase(&self) -> (p: Phase)
        ensures
            p == self.spec_phase(),
    {
        self.phase
    }

    /// Feeds one event in; returns the action to perform next, or none
    /// when the event does not belong to the current phase.
    pub fn step(&mut self, ev: SchedEvent) -> (a: Option<SchedAction>)
        ensures
            final(self).spec_phase() == sched_next_phase(
                old(self).spec_phase(),
                old(self).spec_period_ms(),
                ev,
            ),
            final(self).spec_period_ms() == old(self).spec_period_ms(),
            a == sched_action(old(self).spec_phase(), old(self).spec_period_ms(), ev),
    {
        match (self.phase, ev) {
            (Phase::Discovering, SchedEvent::Discovered(Ok(outs))) => {
                self.phase = Phase::Applying;
                Some(SchedAction::Apply(outs))
            },
            (Phase::Discovering, SchedEvent::Discovered(Err(_))) => {
                self.phase = Phase::Backoff;
                Some(SchedAction::Sleep(RETRY_DELAY_MS))
            },
            (Phase::Backoff, SchedEvent::DelayElapsed) => {
                self.phase = Phase::Discovering;
                Some(SchedAction::Discover)
            },
            (Phase::Applying, SchedEvent::Applied(Ok(_))) => {
                match self.period_ms {
                    Some(p) => {
                        self.phase = Phase::Waiting;
                        Some(SchedAction::Wait(p))
                    },
                    None => {
                        self.phase = Phase::Finished;
                        Some(SchedAction::Stop(true))
                    },
                }
            },
            (Phase::Applying, SchedEvent::Applied(Err(_))) => {
                self.phase = Phase::Finished;
                Some(SchedAction::Stop(false))
            },
            (Phase::Waiting, SchedEvent::PeriodElapsed) => {
                self.phase = Phase::Discovering;
                Some(SchedAction::Discover)
            },
            (Phase::Waiting, SchedEvent::Skip) => {
                self.phase = Phase::Discovering;
                Some(SchedAction::Discover)
            },
            (_, _) => None,
        }
    }
}

/// Law: skip idempotence. A skip interrupt during `Waiting` re-enters
/// discovery at once, whatever remains of the period; a skip in any other
/// phase changes neither the phase nor what the scheduler asks for.
pub proof fn lemma_skip_idempotence(ph: Phase, period_ms: Option<u64>)
    ensures
        ph == Phase::Waiting ==> sched_next_phase(ph, period_ms, SchedEvent::Skip)
            == Phase::Discovering && sched_action(ph, period_ms, SchedEvent::Skip) == Some(
            SchedAction::Discover,
        ),
        ph != Phase::Waiting ==> sched_next_phase(ph, period_ms, SchedEvent::Skip) == ph
            && sched_action(ph, period_ms, SchedEvent::Skip) is None,
{
}

/// Law: the retry policy. The renderer is reached only by a successful
/// discovery; every failed discovery backs off for the fixed delay and
/// then retries discovery, and nothing else ever enters `Applying`.
pub proof fn lemma_discovery_retry(ph: Phase, period_ms: Option<u64>, ev: SchedEvent)
    ensures
        ph != Phase::Applying ==> (sched_next_phase(ph, period_ms, ev) == Phase::Applying <==> (ph
            == Phase::Discovering && (ev matches SchedEvent::Discovered(Ok(_))))),
        (ph == Phase::Discovering && (ev matches SchedEvent::Discovered(Err(_)))) ==> (
        sched_next_phase(ph, period_ms, ev) == Phase::Backoff && sched_action(ph, period_ms, ev)
            == Some(SchedAction::Sleep(RETRY_DELAY_MS))),
        (ph == Phase::Backoff && ev == SchedEvent::DelayElapsed) ==> (sched_next_phase(
            ph,
            period_ms,
            ev,
        ) == Phase::Discovering && sched_action(ph, period_ms, ev) == Some(SchedAction::Discover)),
{
}

/// Law: one-shot termination. Without a configured period, a successful
/// apply stops the run cleanly, and a failed apply stops it with the
/// failure flag, whatever the period.
pub proof fn lemma_oneshot_stops(ph: Phase, period_ms: Option<u64>, ev: SchedEvent)
    ensures
        (ph == Phase::Applying && (ev matches SchedEvent::Applied(Ok(_))) && period_ms is None)
            ==> (sched_next_phase(ph, period_ms, ev) == Phase::Finished && sched_action(
            ph,
            period_ms,
            ev,
        ) == Some(SchedAction::Stop(true))),
        (ph == Phase::Applying && (ev matches SchedEvent::Applied(Err(_)))) ==> (sched_next_phase(
            ph,
            period_ms,
            ev,
        ) == Phase::Finished && sched_action(ph, period_ms, ev) == Some(SchedAction::Stop(false))),
{
}

} // verus!
