//! Whether the engine is installed and running inside the guest, and the
//! one-time bootstrap that makes it so, as a state machine: each stage asks
//! for one action, and what came of it decides the next stage.
use vstd::prelude::*;
use crate::command::{
    archive_path, guest_prefix, root_path, run_in_wsl, texts, to_strings, Command,
    Config, IoMode, Outcome,
};

verus! {

/// Why the engine could not be made ready.
#[derive(Clone, Copy, Debug, PartialEq, Eq, Structural)]
pub enum SetupError {
    /// A program could not be started at all.
    Launch,
    /// The staging directory could not be created.
    Directory,
    /// The root filesystem archive could not be downloaded.
    Download,
    /// The guest could not be instantiated from the archive.
    Import,
    /// The engine's installer failed inside the guest.
    Install,
    /// The client preference file could not be written.
    DetachKeys,
    /// The daemon configuration file could not be written.
    Buildkit,
    /// The engine service could not be started.
    Start,
}

/// One stage of making the engine ready.
#[derive(Clone, Copy, Debug, PartialEq, Eq, Structural)]
pub enum Stage {
    /// Look for the engine inside the guest.
    Probe,
    /// Create the staging directory and the guest's root directory.
    PrepareDir,
    /// Look for an already downloaded archive.
    CheckArchive,
    /// Download the archive.
    Download,
    /// Instantiate the guest from the archive.
    Import,
    /// Run the engine's installer inside the guest.
    Install,
    /// Write the client preference file.
    DetachKeys,
    /// Write the daemon configuration file.
    Buildkit,
    /// Start the engine service.
    Start,
    /// The engine is ready.
    Ready,
    /// Making the engine ready failed.
    Failed(SetupError),
}

/// The steps that set the engine up inside a fresh guest.
#[derive(Clone, Copy, Debug, PartialEq, Eq, Structural)]
pub enum EngineStep {
    Install,
    DetachKeys,
    Buildkit,
}

/// What a stage asks to be done.
pub enum Action {
    /// Spawn a command and report whether it exited with status zero.
    Run(Command),
    /// Create a directory and all its parents.
    CreateDir(String),
    /// Report whether a file exists.
    CheckFile(String),
    /// Nothing more to do: the readiness check is over.
    Finish(Result<(), SetupError>),
}

/// The mathematical content of an `Action`.
pub enum Planned {
    Run(Seq<Seq<char>>, IoMode),
    CreateDir(Seq<char>),
    CheckFile(Seq<char>),
    Finish(Result<(), SetupError>),
}

impl View for Action {
    type V = Planned;

    open spec fn view(&self) -> Planned {
        match self {
            Action::Run(c) => Planned::Run(c@.0, c@.1),
            Action::CreateDir(p) => Planned::CreateDir(p@),
            Action::CheckFile(p) => Planned::CheckFile(p@),
            Action::Finish(r) => Planned::Finish(*r),
        }
    }
}

/// Whether the stage ends the readiness check.
pub open spec fn is_final(s: Stage) -> bool {
    s is Ready || s is Failed
}

/// The stage that follows `s` once its action came out as `o`.
pub open spec fn next_stage(s: Stage, o: Outcome) -> Stage {
    match s {
        Stage::Probe => match o {
            Outcome::Success => Stage::Start,
            Outcome::Failure => Stage::PrepareDir,
            Outcome::Fault => Stage::Failed(SetupError::Launch),
        },
        Stage::PrepareDir => if o is Success {
            Stage::CheckArchive
        } else {
            Stage::Failed(SetupError::Directory)
        },
        Stage::CheckArchive => if o is Success {
            Stage::Import
        } else {
            Stage::Download
        },
        Stage::Download => step_or(o, Stage::Import, SetupError::Download),
        Stage::Import => step_or(o, Stage::Install, SetupError::Import),
        Stage::Install => step_or(o, Stage::DetachKeys, SetupError::Install),
        Stage::DetachKeys => step_or(o, Stage::Buildkit, SetupError::DetachKeys),
        Stage::Buildkit => step_or(o, Stage::Start, SetupError::Buildkit),
        Stage::Start => step_or(o, Stage::Ready, SetupError::Start),
        Stage::Ready => Stage::Ready,
        Stage::Failed(e) => Stage::Failed(e),
    }
}

/// After a command: `next` on success, the stage's own error on failure, and a
/// launch error when the command did not start.
pub open spec fn step_or(o: Outcome, next: Stage, e: SetupError) -> Stage {
    match o {
        Outcome::Success => next,
        Outcome::Failure => Stage::Failed(e),
        Outcome::Fault => Stage::Failed(SetupError::Launch),
    }
}

/// The script that an engine setup step runs inside the guest.
pub open spec fn engine_script(step: EngineStep) -> Seq<char> {
    match step {
        EngineStep::Install => "curl -fsSL https://get.docker.com/ | sh"@,
        EngineStep::DetachKeys => "mkdir -p ~/.docker && echo '{\"detachKeys\":\"ctrl-^\"}' > ~/.docker/config"@,
        EngineStep::Buildkit => "mkdir -p /etc/docker && echo '{\"features\":{\"buildkit\":true}}' > /etc/docker/daemon.json"@,
    }
}

/// The command of an engine setup step: its script under `sh -c` inside the
/// guest; the installer's output is shown, the configuration writes are silent.
pub open spec fn engine_command(cfg: &Config, step: EngineStep) -> Planned {
    Planned::Run(
        guest_prefix(cfg) + seq!["sh"@, "-c"@, engine_script(step)],
        if step is Install { IoMode::Inherit } else { IoMode::Silent },
    )
}

/// What stage `s` asks to be done.
pub open spec fn planned(cfg: &Config, s: Stage) -> Planned {
    match s {
        Stage::Probe => Planned::Run(guest_prefix(cfg) + seq!["which"@, "docker"@], IoMode::Silent),
        Stage::PrepareDir => Planned::CreateDir(root_path(cfg)),
        Stage::CheckArchive => Planned::CheckFile(archive_path(cfg)),
        Stage::Download => Planned::Run(
            seq!["curl"@, "-L"@, cfg.rootfs_url@, "-o"@, archive_path(cfg)],
            IoMode::Inherit,
        ),
        Stage::Import => Planned::Run(
            seq!["wsl"@, "--import"@, cfg.distro_name@, root_path(cfg), archive_path(cfg)],
            IoMode::Inherit,
        ),
        Stage::Install => engine_command(cfg, EngineStep::Install),
        Stage::DetachKeys => engine_command(cfg, EngineStep::DetachKeys),
        Stage::Buildkit => engine_command(cfg, EngineStep::Buildkit),
        Stage::Start => Planned::Run(
            guest_prefix(cfg) + seq!["/sbin/service"@, "docker"@, "start"@],
            IoMode::Silent,
        ),
        Stage::Ready => Planned::Finish(Ok(())),
        Stage::Failed(e) => Planned::Finish(Err(e)),
    }
}

/// The actions performed from stage `s` when they come out as `outs`, in order,
/// until a final stage is reached or the outcomes run out.
pub open spec fn trace(cfg: &Config, s: Stage, outs: Seq<Outcome>) -> Seq<Planned>
    decreases outs.len(),
{
    if is_final(s) || outs.len() == 0 {
        seq![]
    } else {
        seq![planned(cfg, s)] + trace(cfg, next_stage(s, outs[0]), outs.drop_first())
    }
}

/// The stage in which every readiness check begins.
pub fn first_stage() -> (r: Stage)
    ensures
        r == Stage::Probe,
{
    Stage::Probe
}

/// The stage that follows `stage` once its action came out as `outcome`.
pub fn advance(stage: Stage, outcome: Outcome) -> (r: Stage)
    ensures
        r == next_stage(stage, outcome),
{
    match stage {
        Stage::Probe => match outcome {
            Outcome::Success => Stage::Start,
            Outcome::Failure => Stage::PrepareDir,
            Outcome::Fault => Stage::Failed(SetupError::Launch),
        },
        Stage::PrepareDir => match outcome {
            Outcome::Success => Stage::CheckArchive,
            _ => Stage::Failed(SetupError::Directory),
        },
        Stage::CheckArchive => match outcome {
            Outcome::Success => Stage::Import,
            _ => Stage::Download,
        },
        Stage::Download => after_command(outcome, Stage::Import, SetupError::Download),
        Stage::Import => after_command(outcome, Stage::Install, SetupError::Import),
        Stage::Install => after_command(outcome, Stage::DetachKeys, SetupError::Install),
        Stage::DetachKeys => after_command(outcome, Stage::Buildkit, SetupError::DetachKeys),
        Stage::Buildkit => after_command(outcome, Stage::Start, SetupError::Buildkit),
        Stage::Start => after_command(outcome, Stage::Ready, SetupError::Start),
        Stage::Ready => Stage::Ready,
        Stage::Failed(e) => Stage::Failed(e),
    }
}

fn after_command(outcome: Outcome, next: Stage, e: SetupError) -> (r: Stage)
    ensures
        r == step_or(outcome, next, e),
{
    match outcome {
        Outcome::Success => next,
        Outcome::Failure => Stage::Failed(e),
        Outcome::Fault => Stage::Failed(SetupError::Launch),
    }
}

/// The command of an engine setup step inside the guest.
pub fn setup_docker_on_distro(cfg: &Config, step: EngineStep) -> (r: Command)
    ensures
        Planned::Run(r@.0, r@.1) == engine_command(cfg, step),
{
    let script = match step {
        EngineStep::Install => "curl -fsSL https://get.docker.com/ | sh",
        EngineStep::DetachKeys => "mkdir -p ~/.docker && echo '{\"detachKeys\":\"ctrl-^\"}' > ~/.docker/config",
        EngineStep::Buildkit => "mkdir -p /etc/docker && echo '{\"features\":{\"buildkit\":true}}' > /etc/docker/daemon.json",
    };
    let args = to_strings(&["sh", "-c", script]);
    assert(texts(args@) =~= seq!["sh"@, "-c"@, engine_script(step)]);
    let silent = match step {
        EngineStep::Install => false,
        _ => true,
    };
    run_in_wsl(cfg, &args, silent)
}

/// What stage `stage` of the readiness check asks to be done.
pub fn ensure_docker(cfg: &Config, stage: Stage) -> (r: Action)
    ensures
        r@ == planned(cfg, stage),
{
    match stage {
        Stage::Probe => {
            let args = to_strings(&["which", "docker"]);
            assert(texts(args@) =~= seq!["which"@, "docker"@]);
            Action::Run(run_in_wsl(cfg, &args, true))
        },
        Stage::PrepareDir => Action::CreateDir(root_dir(cfg)),
        Stage::CheckArchive => Action::CheckFile(archive_file(cfg)),
        Stage::Download => {
            let archive = archive_file(cfg);
            let argv = to_strings(
                &["curl", "-L", cfg.rootfs_url.as_str(), "-o", archive.as_str()],
            );
            assert(texts(argv@) =~= seq!["curl"@, "-L"@, cfg.rootfs_url@, "-o"@, archive_path(cfg)]);
            Action::Run(Command { argv, mode: IoMode::Inherit })
        },
        Stage::Import => {
            let root = root_dir(cfg);
            let archive = archive_file(cfg);
            let argv = to_strings(
                &["wsl", "--import", cfg.distro_name.as_str(), root.as_str(), archive.as_str()],
            );
            assert(texts(argv@) =~= seq![
                "wsl"@,
                "--import"@,
                cfg.distro_name@,
                root_path(cfg),
                archive_path(cfg),
            ]);
            Action::Run(Command { argv, mode: IoMode::Inherit })
        },
        Stage::Install => Action::Run(setup_docker_on_distro(cfg, EngineStep::Install)),
        Stage::DetachKeys => Action::Run(setup_docker_on_distro(cfg, EngineStep::DetachKeys)),
        Stage::Buildkit => Action::Run(setup_docker_on_distro(cfg, EngineStep::Buildkit)),
        Stage::Start => {
            let args = to_strings(&["/sbin/service", "docker", "start"]);
            assert(texts(args@) =~= seq!["/sbin/service"@, "docker"@, "start"@]);
            Action::Run(run_in_wsl(cfg, &args, true))
        },
        Stage::Ready => Action::Finish(Ok(())),
        Stage::Failed(e) => Action::Finish(Err(e)),
    }
}

fn root_dir(cfg: &Config) -> (r: String)
    ensures
        r@ == root_path(cfg),
{
    crate::command::join_path(cfg.distro_dir.as_str(), cfg.separator.as_str(), "root")
}

fn archive_file(cfg: &Config) -> (r: String)
    ensures
        r@ == archive_path(cfg),
{
    crate::command::join_path(cfg.distro_dir.as_str(), cfg.separator.as_str(), "rootfs.tar.gz")
}

/// A readiness check that finds the engine already installed performs the
/// probe and the service start and nothing else: no download, import, install
/// or configuration write, however many checks came before it.
pub proof fn lemma_running_engine_no_bootstrap(cfg: &Config, outs: Seq<Outcome>)
    requires
        outs.len() >= 1,
        outs[0] == Outcome::Success,
    ensures
        trace(cfg, Stage::Probe, outs) == (if outs.len() == 1 {
            seq![planned(cfg, Stage::Probe)]
        } else {
            seq![planned(cfg, Stage::Probe), planned(cfg, Stage::Start)]
        }),
{
    let o1 = outs.drop_first();
    let t1 = trace(cfg, Stage::Start, o1);
    assert(trace(cfg, Stage::Probe, outs) == seq![planned(cfg, Stage::Probe)] + t1);
    if outs.len() == 1 {
        assert(t1 =~= Seq::<Planned>::empty());
    } else {
        let s2 = next_stage(Stage::Start, o1[0]);
        assert(is_final(s2));
        assert(trace(cfg, s2, o1.drop_first()) =~= Seq::<Planned>::empty());
        assert(t1 =~= seq![planned(cfg, Stage::Start)]);
    }
    assert(trace(cfg, Stage::Probe, outs) =~= (if outs.len() == 1 {
        seq![planned(cfg, Stage::Probe)]
    } else {
        seq![planned(cfg, Stage::Probe), planned(cfg, Stage::Start)]
    }));
}

} // verus!
