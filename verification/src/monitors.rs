//! Monitor discovery policy.
//!
//! Discovery itself is compositor I/O and happens outside this crate; here
//! live the decisions around it: which query a backend wants, the static
//! override list that bypasses discovery entirely, the filter that keeps
//! only active outputs, and the composite policy that distrusts an empty
//! native result and falls back to the CLI tool.

use vstd::prelude::*;

verus! {

/// Why a discovery attempt failed. None of these are fatal to the rotation
/// loop; the scheduler retries after a fixed delay.
#[derive(Clone, Copy, PartialEq, Eq, Structural, Debug)]
pub enum DiscoveryError {
    ConnectTimeout,
    QueryTimeout,
    SpawnFailed,
    CommandFailed,
    NonUtf8Output,
    MalformedPayload,
}

/// One output as a compositor reports it: its name and whether the
/// compositor flags it active.
#[derive(Clone, Debug)]
pub struct MonitorEntry {
    pub name: String,
    pub active: bool,
}

impl View for MonitorEntry {
    type V = (Seq<char>, bool);

    open spec fn view(&self) -> (Seq<char>, bool) {
        (self.name@, self.active)
    }
}

impl DeepView for MonitorEntry {
    type V = (Seq<char>, bool);

    open spec fn deep_view(&self) -> (Seq<char>, bool) {
        self.view()
    }
}

/// How a backend obtains its output list for one rotation cycle.
#[derive(Clone, Copy, PartialEq, Eq, Structural, Debug)]
pub enum DiscoveryPlan {
    /// Return the configured override list; no compositor is consulted.
    UseOverride,
    /// Query the native IPC channel first; on failure or an empty result,
    /// fall back to the CLI status tool.
    NativeThenCli,
    /// Query the CLI status tool directly.
    QueryCli,
}

/// A compositor backend: it decides how the active output list is obtained.
pub trait Backend {
    spec fn spec_plan(&self) -> DiscoveryPlan;

    /// The discovery plan this backend follows every cycle.
    fn plan(&self) -> (p: DiscoveryPlan)
        ensures
            p == self.spec_plan(),
    ;
}

/// Backend for the Hyprland compositor: active outputs come from the CLI
/// status tool's structured output.
pub struct HyprlandBackend;

/// Backend for the Sway compositor. A non-empty `outputs_override` forces
/// exactly those outputs and suppresses all discovery I/O; otherwise the
/// native IPC channel is tried first with the CLI tool as fallback.
pub struct SwayBackend {
    pub outputs_override: Vec<String>,
}

impl Backend for HyprlandBackend {
    open spec fn spec_plan(&self) -> DiscoveryPlan {
        DiscoveryPlan::QueryCli
    }

    fn plan(&self) -> (p: DiscoveryPlan) {
        DiscoveryPlan::QueryCli
    }
}

impl Backend for SwayBackend {
    open spec fn spec_plan(&self) -> DiscoveryPlan {
        if self.outputs_override@.len() > 0 {
            DiscoveryPlan::UseOverride
        } else {
            DiscoveryPlan::NativeThenCli
        }
    }

    fn plan(&self) -> (p: DiscoveryPlan) {
        if self.outputs_override.len() > 0 {
            DiscoveryPlan::UseOverride
        } else {
            DiscoveryPlan::NativeThenCli
        }
    }
}

impl SwayBackend {
    /// The override list, exactly as configured.
    pub fn override_list(&self) -> (r: Vec<String>)
        ensures
            r.deep_view() == self.outputs_override.deep_view(),
    {
        let mut r: Vec<String> = Vec::new();
        let mut i: usize = 0;
        while i < self.outputs_override.len()
            invariant
                i <= self.outputs_override.len(),
                r@.len() == i,
                r.deep_view() =~= self.outputs_override.deep_view().subrange(0, i as int),
            decreases self.outputs_override.len() - i,
        {
            r.push(self.outputs_override[i].clone());
            assert(r.deep_view() =~= self.outputs_override.deep_view().subrange(0, i + 1));
            i = i + 1;
        }
        assert(r.deep_view() =~= self.outputs_override.deep_view());
        r
    }
}

/// The names of the active entries, in the order the compositor reported
/// them.
pub open spec fn active_names_of(entries: Seq<MonitorEntry>) -> Seq<Seq<char>>
    decreases entries.len(),
{
    if entries.len() == 0 {
        Seq::empty()
    } else {
        let rest = active_names_of(entries.drop_last());
        if entries.last().active {
            rest.push(entries.last().name@)
        } else {
            rest
        }
    }
}

/// Keeps the names of exactly the entries flagged active, preserving the
/// compositor's reporting order.
pub fn active_names(entries: &Vec<MonitorEntry>) -> (names: Vec<String>)
    ensures
        names.deep_view() == active_names_of(entries@),
{
    let mut names: Vec<String> = Vec::new();
    let mut i: usize = 0;
    while i < entries.len()
        invariant
            i <= entries.len(),
            names.deep_view() =~= active_names_of(entries@.subrange(0, i as int)),
        decreases entries.len() - i,
    {
        proof {
            assert(entries@.subrange(0, i + 1).drop_last() =~= entries@.subrange(0, i as int));
            assert(entries@.subrange(0, i + 1).last() == entries@[i as int]);
        }
        if entries[i].active {
            names.push(entries[i].name.clone());
        }
        i = i + 1;
    }
    proof {
        assert(entries@.subrange(0, entries@.len() as int) =~= entries@);
    }
    names
}

/// Whether a native-protocol discovery result is taken at its word: only a
/// successful, non-empty output list is.
pub open spec fn native_accepted(r: Result<Vec<String>, DiscoveryError>) -> bool {
    r is Ok && r->Ok_0@.len() > 0
}

/// The composite policy's first step: accept the native result only when it
/// succeeded with at least one output; an empty success is suspicious and
/// treated like a failure, sending the caller to the CLI fallback.
pub fn accept_native(r: Result<Vec<String>, DiscoveryError>) -> (out: Option<Vec<String>>)
    ensures
        out is Some <==> native_accepted(r),
        out is Some ==> out->0 == r->Ok_0,
{
    match r {
        Ok(names) => {
            if names.len() > 0 {
                Some(names)
            } else {
                None
            }
        },
        Err(_) => None,
    }
}

/// Law: a non-empty override list bypasses discovery; the backend's plan
/// performs no query at all, and the returned list is exactly the
/// configured one.
pub proof fn lemma_override_bypasses_discovery(b: SwayBackend)
    requires
        b.outputs_override@.len() > 0,
    ensures
        b.spec_plan() == DiscoveryPlan::UseOverride,
        forall|r: Vec<String>|
            call_ensures(SwayBackend::override_list, (&b,), r) ==> r.deep_view()
                == b.outputs_override.deep_view(),
{
}

/// Law: the composite policy's asymmetry. The CLI fallback is consulted
/// exactly when the native query failed or reported zero active outputs;
/// a non-empty native result suppresses the fallback.
pub proof fn lemma_composite_fallback(r: Result<Vec<String>, DiscoveryError>)
    ensures
        !native_accepted(r) <==> (r is Err || r->Ok_0@.len() == 0),
        forall|out: Option<Vec<String>>|
            call_ensures(accept_native, (r,), out) ==> (out is None <==> (r is Err
                || r->Ok_0@.len() == 0)),
{
}

} // verus!
