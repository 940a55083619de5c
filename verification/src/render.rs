//! Renderer driver: argument building and process-lifecycle planning for
//! the two renderer kinds.
//!
//! The persistent-process renderer drives one long-lived child covering
//! all outputs; each cycle the previous child is terminated and reaped
//! strictly before a replacement is spawned. The daemon-client renderer
//! issues one short-lived command per output and aborts the cycle on the
//! first failure. Spawning, killing and reaping are performed outside this
//! crate; here the plans are computed and their ordering is proved.

use vstd::prelude::*;
use crate::config::{Config, RendererType};
use crate::text::dec_of;
use crate::text::u8_to_string;

verus! {

/// Why a rotation cycle's apply step failed. These are treated as fatal by
/// the scheduler: a broken renderer toolchain needs operator attention.
#[derive(Clone, Copy, PartialEq, Eq, Structural, Debug)]
pub enum ApplyError {
    /// The renderer process could not be started.
    SpawnFailed,
    /// A per-output renderer command exited with a non-zero status.
    CommandFailed,
}

/// One step of the persistent-process replacement protocol, identified by
/// the abstract handle of the child it concerns.
#[derive(Clone, Copy, PartialEq, Eq, Structural, Debug)]
pub enum ProcAction {
    /// Send the child a termination request.
    Terminate(u64),
    /// Block until the child is fully reaped.
    Reap(u64),
    /// Start the replacement process.
    Spawn,
}

/// The flag-group sequence handed to the persistent-process renderer: for
/// each output whose image path resolved, the group
/// `-o <output> -m <mode> -i <path>`; outputs whose path did not resolve
/// are omitted.
pub open spec fn swaybg_args_of(
    monitors: Seq<Seq<char>>,
    paths: Seq<Option<Seq<char>>>,
    mode: Seq<char>,
) -> Seq<Seq<char>>
    decreases monitors.len(),
{
    if monitors.len() == 0 {
        Seq::empty()
    } else {
        let rest = swaybg_args_of(monitors.drop_last(), paths.drop_last(), mode);
        if paths.last() is Some {
            rest + seq!["-o"@, monitors.last(), "-m"@, mode, "-i"@, paths.last()->0]
        } else {
            rest
        }
    }
}

/// Builds the argument list for one persistent-process invocation covering
/// all outputs. `paths[i]` is the absolute image path chosen for
/// `monitors[i]`, or absent when the path failed to resolve; such outputs
/// are skipped silently.
pub fn build_swaybg_args(monitors: &Vec<String>, paths: &Vec<Option<String>>, mode: &str) -> (args:
    Vec<String>)
    requires
        monitors@.len() == paths@.len(),
    ensures
        args.deep_view() == swaybg_args_of(monitors.deep_view(), paths.deep_view(), mode@),
{
    let mut args: Vec<String> = Vec::new();
    let mut i: usize = 0;
    while i < monitors.len()
        invariant
            monitors@.len() == paths@.len(),
            i <= monitors@.len(),
            args.deep_view() =~= swaybg_args_of(
                monitors.deep_view().subrange(0, i as int),
                paths.deep_view().subrange(0, i as int),
                mode@,
            ),
        decreases monitors@.len() - i,
    {
        proof {
            assert(monitors.deep_view().subrange(0, i + 1).drop_last() =~= monitors.deep_view()
                .subrange(0, i as int));
            assert(paths.deep_view().subrange(0, i + 1).drop_last() =~= paths.deep_view().subrange(
                0,
                i as int,
            ));
            assert(monitors.deep_view().subrange(0, i + 1).last() == monitors@[i as int]@);
            assert(paths.deep_view().subrange(0, i + 1).last() == paths@[i as int].deep_view());
        }
        let ghost pre = args.deep_view();
        match &paths[i] {
            Some(p) => {
                args.push(String::from_str("-o"));
                args.push(monitors[i].clone());
                args.push(String::from_str("-m"));
                args.push(String::from_str(mode));
                args.push(String::from_str("-i"));
                args.push(p.clone());
                assert(args.deep_view() =~= pre + seq![
                    "-o"@,
                    monitors@[i as int]@,
                    "-m"@,
                    mode@,
                    "-i"@,
                    paths@[i as int]->0@,
                ]);
            },
            None => {},
        }
        assert(args.deep_view() =~= swaybg_args_of(
            monitors.deep_view().subrange(0, i + 1),
            paths.deep_view().subrange(0, i + 1),
            mode@,
        ));
        i = i + 1;
    }
    proof {
        assert(monitors.deep_view().subrange(0, monitors@.len() as int) =~= monitors.deep_view());
        assert(paths.deep_view().subrange(0, paths@.len() as int) =~= paths.deep_view());
    }
    args
}

/// The replacement plan for one persistent-process apply: terminate and
/// reap the previous child if one is live, then spawn the replacement if
/// there is anything to show. With nothing to show, the previous child is
/// still torn down and nothing replaces it.
pub open spec fn replacement_plan(live: Option<u64>, spawn_new: bool) -> Seq<ProcAction> {
    let kills = if live is Some {
        seq![ProcAction::Terminate(live->0), ProcAction::Reap(live->0)]
    } else {
        Seq::<ProcAction>::empty()
    };
    if spawn_new {
        kills.push(ProcAction::Spawn)
    } else {
        kills
    }
}

/// The renderer driver. It owns the single persistent-process handle slot:
/// at most one child is live at any time, and the slot is emptied (with
/// the teardown steps planned first) before any new spawn is confirmed.
pub struct Renderer {
    renderer: RendererType,
    swaybg_live: Option<u64>,
    daemon_bin: Option<String>,
}

impl Renderer {
    /// Which renderer kind this driver was initialized for.
    pub closed spec fn spec_renderer(self) -> RendererType {
        self.renderer
    }

    /// The abstract handle of the live persistent-process child, if any.
    pub closed spec fn spec_live(self) -> Option<u64> {
        self.swaybg_live
    }

    /// The daemon-client binary name detected at initialization, if any.
    pub closed spec fn spec_daemon_bin(self) -> Option<Seq<char>> {
        self.daemon_bin.deep_view()
    }

    /// A fresh driver: no child is live. For the daemon-client kind,
    /// `daemon_bin` is the binary name detected at startup.
    pub fn new(renderer: RendererType, daemon_bin: Option<String>) -> (r: Renderer)
        ensures
            r.spec_renderer() == renderer,
            r.spec_live() is None,
            r.spec_daemon_bin() == daemon_bin.deep_view(),
    {
        Renderer { renderer, swaybg_live: None, daemon_bin }
    }

    /// The daemon-client binary this driver was initialized with.
    pub fn daemon_bin(&self) -> (b: Option<&String>)
        ensures
            b is Some <==> self.spec_daemon_bin() is Some,
            b is Some ==> b->0@ == self.spec_daemon_bin()->0,
    {
        self.daemon_bin.as_ref()
    }

    /// The live persistent-process handle, for callers that inspect the
    /// driver's state.
    pub fn live(&self) -> (h: Option<u64>)
        ensures
            h == self.spec_live(),
    {
        self.swaybg_live
    }

    /// Plans one persistent-process apply and empties the handle slot. The
    /// returned steps are executed in order by the caller: any previous
    /// child is terminated and reaped strictly before the spawn step. With
    /// `spawn_new` false (an empty argument list) the teardown still
    /// happens and no spawn is planned.
    pub fn begin_swaybg_apply(&mut self, spawn_new: bool) -> (acts: Vec<ProcAction>)
        ensures
            acts@ == replacement_plan(old(self).spec_live(), spawn_new),
            final(self).spec_live() is None,
            final(self).spec_renderer() == old(self).spec_renderer(),
            final(self).spec_daemon_bin() == old(self).spec_daemon_bin(),
    {
        let mut acts: Vec<ProcAction> = Vec::new();
        match self.swaybg_live {
            Some(h) => {
                acts.push(ProcAction::Terminate(h));
                acts.push(ProcAction::Reap(h));
            },
            None => {},
        }
        if spawn_new {
            acts.push(ProcAction::Spawn);
        }
        self.swaybg_live = None;
        proof {
            assert(acts@ =~= replacement_plan(old(self).spec_live(), spawn_new));
        }
        acts
    }

    /// Records the handle of the child the caller just spawned. Only legal
    /// while the slot is empty, which `begin_swaybg_apply` guarantees: a
    /// spawn can never be confirmed over a still-live child.
    pub fn confirm_spawn(&mut self, handle: u64)
        requires
            old(self).spec_live() is None,
        ensures
            final(self).spec_live() == Some(handle),
            final(self).spec_renderer() == old(self).spec_renderer(),
            final(self).spec_daemon_bin() == old(self).spec_daemon_bin(),
    {
        self.swaybg_live = Some(handle);
    }
}

/// Law: safe process replacement. In every replacement plan the spawn step
/// appears at most once, as the last step; every teardown step strictly
/// precedes it; a live child is first terminated, then reaped, in that
/// order; and with nothing to show, nothing is spawned.
pub proof fn lemma_safe_replacement(live: Option<u64>, spawn_new: bool)
    ensures
        !spawn_new ==> forall|i: int|
            0 <= i < replacement_plan(live, spawn_new).len() ==> !(replacement_plan(
                live,
                spawn_new,
            )[i] is Spawn),
        forall|i: int, j: int|
            0 <= i < replacement_plan(live, spawn_new).len() && 0 <= j < replacement_plan(
                live,
                spawn_new,
            ).len() && replacement_plan(live, spawn_new)[i] is Spawn && replacement_plan(
                live,
                spawn_new,
            )[j] is Spawn ==> i == j,
        forall|i: int, j: int|
            0 <= i < replacement_plan(live, spawn_new).len() && 0 <= j < replacement_plan(
                live,
                spawn_new,
            ).len() && replacement_plan(live, spawn_new)[i] is Spawn && !(replacement_plan(
                live,
                spawn_new,
            )[j] is Spawn) ==> j < i,
        live is Some ==> replacement_plan(live, spawn_new)[0] == ProcAction::Terminate(live->0)
            && replacement_plan(live, spawn_new)[1] == ProcAction::Reap(live->0),
{
}

/// The command line of one daemon-client invocation for one output: the
/// image path, the target output and the three transition parameters, all
/// passed verbatim from the configuration.
pub open spec fn swww_cmd_of(
    img: Seq<char>,
    output: Seq<char>,
    ttype: Seq<char>,
    step: int,
    fps: int,
) -> Seq<Seq<char>> {
    seq![
        "img"@,
        img,
        "-o"@,
        output,
        "--transition-type"@,
        ttype,
        "--transition-step"@,
        dec_of(step),
        "--transition-fps"@,
        dec_of(fps),
    ]
}

/// Builds the daemon-client command for one output.
pub fn build_swww_command(img: &String, output: &String, config: &Config) -> (args: Vec<String>)
    ensures
        args.deep_view() == swww_cmd_of(
            img@,
            output@,
            config.transition_type@,
            config.transition_step as int,
            config.transition_fps as int,
        ),
{
    let mut args: Vec<String> = Vec::new();
    args.push(String::from_str("img"));
    args.push(img.clone());
    args.push(String::from_str("-o"));
    args.push(output.clone());
    args.push(String::from_str("--transition-type"));
    args.push(config.transition_type.clone());
    args.push(String::from_str("--transition-step"));
    args.push(u8_to_string(config.transition_step));
    args.push(String::from_str("--transition-fps"));
    args.push(u8_to_string(config.transition_fps));
    proof {
        assert(args.deep_view() =~= swww_cmd_of(
            img@,
            output@,
            config.transition_type@,
            config.transition_step as int,
            config.transition_fps as int,
        ));
    }
    args
}

/// The full command set of one daemon-client apply cycle, one command per
/// output, in the outputs' order.
pub open spec fn swww_cycle_of(
    outputs: Seq<Seq<char>>,
    images: Seq<Seq<char>>,
    ttype: Seq<char>,
    step: int,
    fps: int,
) -> Seq<Seq<Seq<char>>>
    decreases outputs.len(),
{
    if outputs.len() == 0 {
        Seq::empty()
    } else {
        swww_cycle_of(outputs.drop_last(), images.drop_last(), ttype, step, fps).push(
            swww_cmd_of(images.last(), outputs.last(), ttype, step, fps),
        )
    }
}

/// One daemon-client apply cycle: commands are handed out in order, and
/// the first reported failure aborts the remainder of the cycle.
pub struct DaemonApply {
    commands: Vec<Vec<String>>,
    idx: usize,
    failed: bool,
}

impl DaemonApply {
    /// The commands of this cycle.
    pub closed spec fn spec_commands(self) -> Seq<Seq<Seq<char>>> {
        self.commands.deep_view()
    }

    /// How many commands have been handed out.
    pub closed spec fn spec_idx(self) -> int {
        self.idx as int
    }

    /// Whether a failure has been reported.
    pub closed spec fn spec_failed(self) -> bool {
        self.failed
    }

    /// Plans one cycle: one command per output, pairing `outputs[i]` with
    /// `images[i]`.
    pub fn new(outputs: &Vec<String>, images: &Vec<String>, config: &Config) -> (s: DaemonApply)
        requires
            outputs@.len() == images@.len(),
        ensures
            s.spec_commands() == swww_cycle_of(
                outputs.deep_view(),
                images.deep_view(),
                config.transition_type@,
                config.transition_step as int,
                config.transition_fps as int,
            ),
            s.spec_idx() == 0,
            !s.spec_failed(),
    {
        let mut commands: Vec<Vec<String>> = Vec::new();
        let mut i: usize = 0;
        while i < outputs.len()
            invariant
                outputs@.len() == images@.len(),
                i <= outputs@.len(),
                commands@.len() == i,
                commands.deep_view() =~= swww_cycle_of(
                    outputs.deep_view().subrange(0, i as int),
                    images.deep_view().subrange(0, i as int),
                    config.transition_type@,
                    config.transition_step as int,
                    config.transition_fps as int,
                ),
            decreases outputs@.len() - i,
        {
            proof {
                assert(outputs.deep_view().subrange(0, i + 1).drop_last() =~= outputs.deep_view()
                    .subrange(0, i as int));
                assert(images.deep_view().subrange(0, i + 1).drop_last() =~= images.deep_view()
                    .subrange(0, i as int));
                assert(outputs.deep_view().subrange(0, i + 1).last() == outputs@[i as int]@);
                assert(images.deep_view().subrange(0, i + 1).last() == images@[i as int]@);
            }
            commands.push(build_swww_command(&images[i], &outputs[i], config));
            assert(commands.deep_view() =~= swww_cycle_of(
                outputs.deep_view().subrange(0, i + 1),
                images.deep_view().subrange(0, i + 1),
                config.transition_type@,
                config.transition_step as int,
                config.transition_fps as int,
            ));
            i = i + 1;
        }
        proof {
            assert(outputs.deep_view().subrange(0, outputs@.len() as int) =~= outputs.deep_view());
            assert(images.deep_view().subrange(0, images@.len() as int) =~= images.deep_view());
        }
        DaemonApply { commands, idx: 0, failed: false }
    }

    /// The next command to run, or nothing when the cycle is over — either
    /// every command was handed out or a failure aborted the rest.
    pub fn next_command(&mut self) -> (c: Option<Vec<String>>)
        ensures
            final(self).spec_commands() == old(self).spec_commands(),
            final(self).spec_failed() == old(self).spec_failed(),
            c is Some <==> (!old(self).spec_failed() && old(self).spec_idx() < old(
                self,
            ).spec_commands().len()),
            c is Some ==> c->0.deep_view() == old(self).spec_commands()[old(self).spec_idx()]
                && final(self).spec_idx() == old(self).spec_idx() + 1,
            c is None ==> final(self).spec_idx() == old(self).spec_idx(),
    {
        if self.failed || self.idx >= self.commands.len() {
            None
        } else {
            let c = self.commands[self.idx].clone();
            assert(c.deep_view() =~= self.commands.deep_view()[self.idx as int]);
            self.idx = self.idx + 1;
            Some(c)
        }
    }

    /// Records the exit status of the command handed out last; a non-zero
    /// exit marks the cycle failed, which aborts the remaining outputs.
    pub fn report(&mut self, ok: bool)
        ensures
            final(self).spec_commands() == old(self).spec_commands(),
            final(self).spec_idx() == old(self).spec_idx(),
            final(self).spec_failed() == (old(self).spec_failed() || !ok),
    {
        if !ok {
            self.failed = true;
        }
    }

    /// The cycle's outcome: an error exactly when some command failed.
    pub fn outcome(&self) -> (r: Result<(), ApplyError>)
        ensures
            r is Ok <==> !self.spec_failed(),
            r is Err ==> r->Err_0 == ApplyError::CommandFailed,
    {
        if self.failed {
            Err(ApplyError::CommandFailed)
        } else {
            Ok(())
        }
    }
}

/// Picks the daemon-client binary when "swww" is the preferred candidate:
/// the first present candidate wins, and with neither present the
/// preferred name is kept with a warning flag.
pub fn detect_swww_binary(swww_ok: bool, awww_ok: bool) -> (r: (String, bool))
    ensures
        r.0@ == (if swww_ok {
            "swww"@
        } else if awww_ok {
            "awww"@
        } else {
            "swww"@
        }),
        r.1 == (!swww_ok && !awww_ok),
{
    if swww_ok {
        (String::from_str("swww"), false)
    } else if awww_ok {
        (String::from_str("awww"), false)
    } else {
        (String::from_str("swww"), true)
    }
}

/// Picks the daemon-client binary when "awww" is the preferred candidate:
/// the first present candidate wins, and with neither present the
/// preferred name is kept with a warning flag.
pub fn detect_awww_binary(awww_ok: bool, swww_ok: bool) -> (r: (String, bool))
    ensures
        r.0@ == (if awww_ok {
            "awww"@
        } else if swww_ok {
            "swww"@
        } else {
            "awww"@
        }),
        r.1 == (!awww_ok && !swww_ok),
{
    if awww_ok {
        (String::from_str("awww"), false)
    } else if swww_ok {
        (String::from_str("swww"), false)
    } else {
        (String::from_str("awww"), true)
    }
}

} // verus!
