//! Daemon readiness supervision for the daemon-client renderer.
//!
//! At startup the driver must ensure a background daemon is reachable:
//! probe it with a query command; if it does not answer, look for an
//! already-running daemon process by name; if none is found, spawn one and
//! grant it a short fixed grace period to initialize. The probes, the
//! spawn and the sleep are outside work; this machine makes the decisions
//! between them.

use vstd::prelude::*;

verus! {

/// How long a freshly spawned daemon is given to initialize, in
/// milliseconds.
pub const DAEMON_GRACE_MS: u64 = 500;

/// Where the readiness protocol stands.
#[derive(Clone, Copy, PartialEq, Eq, Structural, Debug)]
pub enum EnsureStage {
    /// Asking the daemon itself whether it answers a query.
    ProbeReady,
    /// Looking for a running daemon process by name.
    ProbeProcess,
    /// Spawning the daemon.
    Spawning,
    /// Letting the fresh daemon initialize.
    Grace,
    /// The daemon is taken to be reachable.
    Ready,
    /// The daemon could not be started.
    Failed,
}

/// What the surrounding binary reports back to the machine.
#[derive(Clone, Copy, PartialEq, Eq, Structural, Debug)]
pub enum EnsureEvent {
    /// Whether the readiness query succeeded with a zero exit status.
    ReadyAnswer(bool),
    /// Whether a daemon process of the expected name is running.
    ProcessAnswer(bool),
    /// Whether the daemon spawn itself succeeded.
    SpawnAnswer(bool),
    /// The grace period elapsed.
    GraceElapsed,
}

/// What the surrounding binary is to do next.
#[derive(Clone, Copy, PartialEq, Eq, Structural, Debug)]
pub enum EnsureAction {
    /// Run the binary's readiness query sub-command.
    QueryReady,
    /// Search for the daemon process by exact name.
    CheckProcess,
    /// Spawn the daemon process.
    SpawnDaemon,
    /// Sleep for the given number of milliseconds.
    SleepGrace(u64),
    /// Nothing is left to do: the daemon is reachable.
    Done,
    /// Give up: initialization failed.
    Fail,
}

/// The step the surrounding binary performs while the protocol stands at
/// this stage.
pub open spec fn pending_action(stage: EnsureStage) -> EnsureAction {
    match stage {
        EnsureStage::ProbeReady => EnsureAction::QueryReady,
        EnsureStage::ProbeProcess => EnsureAction::CheckProcess,
        EnsureStage::Spawning => EnsureAction::SpawnDaemon,
        EnsureStage::Grace => EnsureAction::SleepGrace(DAEMON_GRACE_MS),
        EnsureStage::Ready => EnsureAction::Done,
        EnsureStage::Failed => EnsureAction::Fail,
    }
}

/// The transition relation: an answering daemon or a found process ends
/// the protocol at once; otherwise the daemon is spawned and granted the
/// grace period; only a failed spawn fails the protocol. An event that
/// does not belong to the current stage changes nothing.
pub open spec fn ensure_next(stage: EnsureStage, ev: EnsureEvent) -> EnsureStage {
    match (stage, ev) {
        (EnsureStage::ProbeReady, EnsureEvent::ReadyAnswer(true)) => EnsureStage::Ready,
        (EnsureStage::ProbeReady, EnsureEvent::ReadyAnswer(false)) => EnsureStage::ProbeProcess,
        (EnsureStage::ProbeProcess, EnsureEvent::ProcessAnswer(true)) => EnsureStage::Ready,
        (EnsureStage::ProbeProcess, EnsureEvent::ProcessAnswer(false)) => EnsureStage::Spawning,
        (EnsureStage::Spawning, EnsureEvent::SpawnAnswer(true)) => EnsureStage::Grace,
        (EnsureStage::Spawning, EnsureEvent::SpawnAnswer(false)) => EnsureStage::Failed,
        (EnsureStage::Grace, EnsureEvent::GraceElapsed) => EnsureStage::Ready,
        _ => stage,
    }
}

/// The readiness protocol for one daemon binary.
pub struct EnsureDaemon {
    bin: String,
    stage: EnsureStage,
}

impl EnsureDaemon {
    /// The binary name the protocol is run for.
    pub closed spec fn spec_bin(self) -> Seq<char> {
        self.bin@
    }

    /// The current stage.
    pub closed spec fn spec_stage(self) -> EnsureStage {
        self.stage
    }

    /// Starts the protocol for one binary, at the readiness probe.
    pub fn new(bin: String) -> (s: EnsureDaemon)
        ensures
            s.spec_bin() == bin@,
            s.spec_stage() == EnsureStage::ProbeReady,
    {
        EnsureDaemon { bin, stage: EnsureStage::ProbeReady }
    }

    /// The current stage, for callers that inspect the protocol's
    /// progress.
    pub fn stage(&self) -> (st: EnsureStage)
        ensures
            st == self.spec_stage(),
    {
        self.stage
    }

    /// The daemon process's name: the binary name with the "-daemon"
    /// suffix, used both for the process search and for the spawn.
    pub fn daemon_name(&self) -> (d: String)
        ensures
            d@ == self.spec_bin() + "-daemon"@,
    {
        self.bin.clone().concat("-daemon")
    }

    /// The step to perform at the current stage.
    pub fn pending(&self) -> (a: EnsureAction)
        ensures
            a == pending_action(self.spec_stage()),
    {
        match self.stage {
            EnsureStage::ProbeReady => EnsureAction::QueryReady,
            EnsureStage::ProbeProcess => EnsureAction::CheckProcess,
            EnsureStage::Spawning => EnsureAction::SpawnDaemon,
            EnsureStage::Grace => EnsureAction::SleepGrace(DAEMON_GRACE_MS),
            EnsureStage::Ready => EnsureAction::Done,
            EnsureStage::Failed => EnsureAction::Fail,
        }
    }

    /// Feeds the outcome of the last step back in and returns the next
    /// step to perform.
    pub fn step(&mut self, ev: EnsureEvent) -> (a: EnsureAction)
        ensures
            final(self).spec_stage() == ensure_next(old(self).spec_stage(), ev),
            final(self).spec_bin() == old(self).spec_bin(),
            a == pending_action(final(self).spec_stage()),
    {
        let next = match (self.stage, ev) {
            (EnsureStage::ProbeReady, EnsureEvent::ReadyAnswer(true)) => EnsureStage::Ready,
            (EnsureStage::ProbeReady, EnsureEvent::ReadyAnswer(false)) => EnsureStage::ProbeProcess,
            (EnsureStage::ProbeProcess, EnsureEvent::ProcessAnswer(true)) => EnsureStage::Ready,
            (EnsureStage::ProbeProcess, EnsureEvent::ProcessAnswer(false)) => EnsureStage::Spawning,
            (EnsureStage::Spawning, EnsureEvent::SpawnAnswer(true)) => EnsureStage::Grace,
            (EnsureStage::Spawning, EnsureEvent::SpawnAnswer(false)) => EnsureStage::Failed,
            (EnsureStage::Grace, EnsureEvent::GraceElapsed) => EnsureStage::Ready,
            (s, _) => s,
        };
        self.stage = next;
        self.pending()
    }
}

/// Law: the protocol fails only when the spawn itself fails; every other
/// answer either finishes it or moves it forward.
pub proof fn lemma_ensure_fails_only_on_spawn(stage: EnsureStage, ev: EnsureEvent)
    ensures
        ensure_next(stage, ev) == EnsureStage::Failed <==> (stage == EnsureStage::Failed || (stage
            == EnsureStage::Spawning && ev == EnsureEvent::SpawnAnswer(false))),
{
}

} // verus!
