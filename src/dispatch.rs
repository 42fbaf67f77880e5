//! The reserved maintenance subcommands, and the command that forwards any
//! other argument vector to the engine's client inside the guest.
use vstd::prelude::*;
use crate::command::{
    guest_prefix, prefixed, run_in_wsl, texts, to_strings, Command, Config, IoMode, Outcome,
};
use crate::readiness::{planned, trace, SetupError, Stage};

verus! {

/// What an invocation does with its argument vector.
pub enum Dispatch {
    /// Make the engine ready, rewrite the arguments and forward them.
    Forward,
    /// A maintenance subcommand: run `steps` in order, then, when `ready_from`
    /// holds a stage, run the readiness check from that stage.
    Reserved { steps: Vec<Command>, ready_from: Option<Stage> },
}

/// The views of a sequence of commands.
pub open spec fn command_views(v: Seq<Command>) -> Seq<(Seq<Seq<char>>, IoMode)> {
    v.map_values(|c: Command| c@)
}

impl View for Dispatch {
    type V = Option<(Seq<(Seq<Seq<char>>, IoMode)>, Option<Stage>)>;

    open spec fn view(&self) -> Self::V {
        match self {
            Dispatch::Forward => None,
            Dispatch::Reserved { steps, ready_from } => Some((command_views(steps@), *ready_from)),
        }
    }
}

/// Shuts down every guest instance, silently.
pub open spec fn shutdown_command() -> (Seq<Seq<char>>, IoMode) {
    (seq!["wsl"@, "--shutdown"@], IoMode::Silent)
}

/// Destroys this tool's guest instance, silently.
pub open spec fn unregister_command(cfg: &Config) -> (Seq<Seq<char>>, IoMode) {
    (seq!["wsl"@, "--unregister"@, cfg.distro_name@], IoMode::Silent)
}

/// The stage the readiness check after a reset starts in: the probe, as in
/// every readiness check.
pub open spec fn fresh_stage() -> Stage {
    Stage::Probe
}

/// What the invocation `args` does: `stop-daemon` shuts the guests down;
/// `reset-registration` shuts them down, destroys this guest and runs the
/// readiness check again; anything else is forwarded.
pub open spec fn dispatch_of(cfg: &Config, args: Seq<Seq<char>>) -> Option<
    (Seq<(Seq<Seq<char>>, IoMode)>, Option<Stage>),
> {
    if args.len() > 0 && args[0] == "stop-daemon"@ {
        Some((seq![shutdown_command()], None))
    } else if args.len() > 0 && args[0] == "reset-registration"@ {
        Some((seq![shutdown_command(), unregister_command(cfg)], Some(fresh_stage())))
    } else {
        None
    }
}

fn host_command(parts: &[&str]) -> (r: Command)
    ensures
        r@ == (parts@.map_values(|p: &str| p@), IoMode::Silent),
{
    Command { argv: to_strings(parts), mode: IoMode::Silent }
}

/// What the invocation `args` does, by its first argument.
pub fn handle_extra_subcommand(cfg: &Config, args: &Vec<String>) -> (r: Dispatch)
    ensures
        r@ == dispatch_of(cfg, texts(args@)),
{
    if args.len() == 0 {
        return Dispatch::Forward;
    }
    let first = args[0].as_str();
    assert(first@ == texts(args@)[0]);
    if String::from_str(first) == String::from_str("stop-daemon") {
        let shutdown = host_command(&["wsl", "--shutdown"]);
        assert(shutdown@ == shutdown_command());
        let mut steps: Vec<Command> = Vec::new();
        steps.push(shutdown);
        assert(command_views(steps@) =~= seq![shutdown_command()]);
        Dispatch::Reserved { steps, ready_from: None }
    } else if String::from_str(first) == String::from_str("reset-registration") {
        let shutdown = host_command(&["wsl", "--shutdown"]);
        assert(shutdown@ == shutdown_command());
        let unregister = host_command(&["wsl", "--unregister", cfg.distro_name.as_str()]);
        assert(unregister@ == unregister_command(cfg));
        let mut steps: Vec<Command> = Vec::new();
        steps.push(shutdown);
        steps.push(unregister);
        assert(command_views(steps@) =~= seq![shutdown_command(), unregister_command(cfg)]);
        Dispatch::Reserved { steps, ready_from: Some(Stage::Probe) }
    } else {
        Dispatch::Forward
    }
}

/// What a maintenance step's outcome means: its exit status is not looked at,
/// but a step that could not be started at all stops the invocation.
pub fn reserved_step_result(outcome: Outcome) -> (r: Result<(), SetupError>)
    ensures
        r == (if outcome is Fault {
            Err::<(), SetupError>(SetupError::Launch)
        } else {
            Ok(())
        }),
{
    match outcome {
        Outcome::Fault => Err(SetupError::Launch),
        _ => Ok(()),
    }
}

/// The command that forwards the (rewritten) arguments to the engine's client
/// inside the guest, with its output shown.
pub fn execute_wrapped(cfg: &Config, args: &Vec<String>) -> (r: Command)
    ensures
        r@.0 == guest_prefix(cfg) + seq!["docker"@] + texts(args@),
        r@.1 == IoMode::Inherit,
{
    let docker = to_strings(&["docker"]);
    let argv = prefixed(docker, args);
    assert(texts(argv@) =~= seq!["docker"@] + texts(args@));
    let r = run_in_wsl(cfg, &argv, false);
    assert(guest_prefix(cfg) + (seq!["docker"@] + texts(args@)) =~= guest_prefix(cfg)
        + seq!["docker"@] + texts(args@));
    r
}

/// The exit code of this tool once the forwarded command ended: its own code,
/// or 1 when it ended without one.
pub fn forwarded_exit_code(code: Option<i32>) -> (r: i32)
    ensures
        r == (match code {
            Some(c) => c,
            None => 1,
        }),
{
    match code {
        Some(c) => c,
        None => 1,
    }
}

/// `reset-registration` always bootstraps the guest afresh: after the guest is
/// destroyed its readiness check starts with the probe, which then finds no
/// engine, and the engine's installer runs again whatever was installed
/// before, once the steps ahead of it succeed (the archive may be found or
/// downloaded).
pub proof fn lemma_reset_reinstalls(cfg: &Config, args: Seq<Seq<char>>, outs: Seq<Outcome>)
    requires
        args.len() > 0,
        args[0] == "reset-registration"@,
        outs.len() >= 6,
        outs[0] == Outcome::Failure,
        forall|i: int| 1 <= i < outs.len() && i != 2 ==> outs[i] == Outcome::Success,
    ensures
        dispatch_of(cfg, args) matches Some((_, Some(s))) && s == Stage::Probe,
        trace(cfg, Stage::Probe, outs).contains(planned(cfg, Stage::Install)),
{
    reveal_strlit("reset-registration");
    reveal_strlit("stop-daemon");
    assert(args[0] != "stop-daemon"@) by {
        assert(args[0].len() != "stop-daemon"@.len());
    }
    let t = trace(cfg, Stage::Probe, outs);
    let o1 = outs.drop_first();
    let o2 = o1.drop_first();
    let o3 = o2.drop_first();
    let o4 = o3.drop_first();
    let o5 = o4.drop_first();
    let t1 = trace(cfg, Stage::PrepareDir, o1);
    assert(t == seq![planned(cfg, Stage::Probe)] + t1);
    let t2 = trace(cfg, Stage::CheckArchive, o2);
    assert(t1 == seq![planned(cfg, Stage::PrepareDir)] + t2);
    let tail;
    if outs[2] is Success {
        let t3 = trace(cfg, Stage::Import, o3);
        assert(t2 == seq![planned(cfg, Stage::CheckArchive)] + t3);
        let t4 = trace(cfg, Stage::Install, o4);
        assert(t3 == seq![planned(cfg, Stage::Import)] + t4);
        assert(t4[0] == planned(cfg, Stage::Install));
        assert(t[4] == t4[0]);
        tail = 4int;
    } else {
        let t3 = trace(cfg, Stage::Download, o3);
        assert(t2 == seq![planned(cfg, Stage::CheckArchive)] + t3);
        let t4 = trace(cfg, Stage::Import, o4);
        assert(t3 == seq![planned(cfg, Stage::Download)] + t4);
        let t5 = trace(cfg, Stage::Install, o5);
        assert(t4 == seq![planned(cfg, Stage::Import)] + t5);
        assert(t5[0] == planned(cfg, Stage::Install));
        assert(t[5] == t5[0]);
        tail = 5int;
    }
    assert(t[tail] == planned(cfg, Stage::Install));
}

} // verus!
