//! One invocation from start to end, as a state machine: each step asks for
//! one action, and the report of what came of it decides the next step. It
//! runs a maintenance subcommand, or makes the engine ready, converts the
//! paths the arguments need and forwards them.
use vstd::prelude::*;
use crate::command::{clone_strings, guest_prefix, texts, Command, Config, IoMode, Outcome};
use crate::dispatch::{command_views, dispatch_of, execute_wrapped, handle_extra_subcommand, Dispatch};
use crate::readiness::{advance, ensure_docker, is_final, next_stage, planned, Action, Planned, SetupError, Stage};
use crate::rewrite::{
    convert_path, converted_path, has_backslash, loose_applies, loose_candidates, modify_args,
    mount_sources, mounts_fixed, opt_text, opt_texts, required_paths, rewritten, trim_of,
};

verus! {

/// Why an invocation failed.
#[derive(Clone, Copy, Debug, PartialEq, Eq, Structural)]
pub enum InvokeError {
    /// The engine could not be made ready.
    Setup(SetupError),
    /// A bind-mount source path could not be converted.
    Conversion,
}

/// Where an invocation stands.
#[derive(Clone, Copy, Debug, PartialEq, Eq, Structural)]
pub enum Phase {
    /// Running the maintenance subcommand's commands.
    Maintenance,
    /// Making the engine ready, at this stage.
    Readiness(Stage),
    /// Converting the bind-mount source paths.
    Sources,
    /// Converting the arguments that hold a backslash.
    Loose,
    /// Forwarding the rewritten arguments.
    Forward,
    /// Ended with this exit code.
    Exited(i32),
    /// Ended with this error.
    Failed(InvokeError),
}

/// What came of the action last asked for.
pub struct Report {
    pub outcome: Outcome,
    /// The captured standard output, for a command that captures it.
    pub output: String,
    /// The exit code, for a command that ended with one.
    pub code: Option<i32>,
}

/// What the invocation asks for next.
pub enum Step {
    Perform(Action),
    Exit(Result<i32, InvokeError>),
}

pub enum StepView {
    Perform(Planned),
    Exit(Result<i32, InvokeError>),
}

impl View for Step {
    type V = StepView;

    open spec fn view(&self) -> StepView {
        match self {
            Step::Perform(a) => StepView::Perform(a@),
            Step::Exit(r) => StepView::Exit(*r),
        }
    }
}

/// The command that converts the host path `p`, as an action.
pub open spec fn conversion(cfg: &Config, p: Seq<char>) -> Planned {
    Planned::Run(guest_prefix(cfg) + seq!["wslpath"@, "-u"@, p], IoMode::Capture)
}

/// This tool's exit code once the forwarded command ended.
pub open spec fn exit_code_of(code: Option<i32>) -> i32 {
    match code {
        Some(c) => c,
        None => 1,
    }
}

/// One invocation of the tool.
pub struct Invocation {
    /// The arguments as given; they are never changed.
    pub args: Vec<String>,
    /// Whether the arguments are forwarded (no maintenance subcommand).
    pub forwarding: bool,
    /// The maintenance subcommand's commands, and how many have run.
    pub maintenance: Vec<Command>,
    pub done_steps: usize,
    /// Where the readiness check after maintenance starts, if one runs.
    pub rebuild: Option<Stage>,
    /// The bind-mount source paths to convert, and their conversions so far.
    pub sources: Vec<String>,
    pub translated: Vec<String>,
    /// For each argument, the text to convert in the backslash pass, if any,
    /// and the conversions so far (`None` where there was none or it failed).
    pub candidates: Vec<Option<String>>,
    pub loose: Vec<Option<String>>,
    pub phase: Phase,
}

impl Invocation {
    /// The invariant, apart from the guarantee that the phase has work to ask for.
    pub open spec fn holds(&self) -> bool {
        let a = texts(self.args@);
        &&& texts(self.sources@) == required_paths(a)
        &&& self.translated@.len() <= self.sources@.len()
        &&& self.done_steps <= self.maintenance@.len()
        &&& (self.rebuild matches Some(s) ==> !is_final(s))
        &&& (self.phase is Maintenance ==> self.done_steps < self.maintenance@.len())
        &&& (self.phase matches Phase::Readiness(s) ==> !is_final(s))
        &&& (self.phase is Sources || self.phase is Loose || self.phase is Forward)
            ==> self.forwarding
        &&& (self.phase is Loose || self.phase is Forward) ==> {
            &&& self.translated@.len() == self.sources@.len()
            &&& self.candidates@.len() == a.len()
            &&& self.loose@.len() <= a.len()
            &&& forall|i: int|
                0 <= i < self.candidates@.len() ==> opt_text(#[trigger] self.candidates@[i]) == (
                if loose_applies(a) && has_backslash(mounts_fixed(a, texts(self.translated@))[i]) {
                    Some(mounts_fixed(a, texts(self.translated@))[i])
                } else {
                    None
                })
        }
        &&& (self.phase is Forward ==> self.loose@.len() == a.len())
    }

    /// The invariant: `holds`, and a phase of conversions has one left to ask for.
    pub open spec fn wf(&self) -> bool {
        &&& self.holds()
        &&& (self.phase is Sources ==> self.translated@.len() < self.sources@.len())
        &&& (self.phase is Loose ==> self.loose@.len() < self.args@.len()
            && self.candidates@[self.loose@.len() as int] is Some)
    }

    /// The invocation with arguments `args`: a maintenance subcommand runs its
    /// commands first; any other starts with the readiness check's probe.
    pub fn new(cfg: &Config, args: Vec<String>) -> (r: Invocation)
        ensures
            r.wf(),
            r.args@ == args@,
            r.done_steps == 0,
            r.translated@.len() == 0,
            match dispatch_of(cfg, texts(args@)) {
                Some((steps, ready_from)) => {
                    &&& !r.forwarding
                    &&& r.phase == Phase::Maintenance
                    &&& command_views(r.maintenance@) == steps
                    &&& r.rebuild == ready_from
                },
                None => r.forwarding && r.phase == Phase::Readiness(Stage::Probe),
            },
    {
        let sources = mount_sources(&args);
        match handle_extra_subcommand(cfg, &args) {
            Dispatch::Reserved { steps, ready_from } => {
                assert(command_views(steps@).len() == steps@.len());
                Invocation {
                args,
                forwarding: false,
                maintenance: steps,
                done_steps: 0,
                rebuild: ready_from,
                sources,
                translated: Vec::new(),
                candidates: Vec::new(),
                loose: Vec::new(),
                phase: Phase::Maintenance,
            }
            },
            Dispatch::Forward => Invocation {
                args,
                forwarding: true,
                maintenance: Vec::new(),
                done_steps: 0,
                rebuild: None,
                sources,
                translated: Vec::new(),
                candidates: Vec::new(),
                loose: Vec::new(),
                phase: Phase::Readiness(Stage::Probe),
            },
        }
    }

    /// What the invocation asks for next.
    pub fn next_step(&self, cfg: &Config) -> (r: Step)
        requires
            self.wf(),
        ensures
            self.phase is Maintenance ==> r@ == StepView::Perform(
                Planned::Run(
                    self.maintenance@[self.done_steps as int]@.0,
                    self.maintenance@[self.done_steps as int]@.1,
                ),
            ),
            self.phase matches Phase::Readiness(s) ==> r@ == StepView::Perform(planned(cfg, s)),
            self.phase is Sources ==> r@ == StepView::Perform(
                conversion(cfg, self.sources@[self.translated@.len() as int]@),
            ),
            self.phase is Loose ==> r@ == StepView::Perform(
                conversion(cfg, opt_text(self.candidates@[self.loose@.len() as int])->Some_0),
            ),
            self.phase is Forward ==> r@ == StepView::Perform(
                Planned::Run(
                    guest_prefix(cfg) + seq!["docker"@] + rewritten(
                        texts(self.args@),
                        texts(self.translated@),
                        opt_texts(self.loose@),
                    ),
                    IoMode::Inherit,
                ),
            ),
            self.phase matches Phase::Exited(c) ==> r@ == StepView::Exit(Ok(c)),
            self.phase matches Phase::Failed(e) ==> r@ == StepView::Exit(Err(e)),
    {
        match self.phase {
            Phase::Maintenance => {
                let c = &self.maintenance[self.done_steps];
                Step::Perform(Action::Run(Command { argv: clone_strings(&c.argv), mode: c.mode }))
            },
            Phase::Readiness(s) => Step::Perform(ensure_docker(cfg, s)),
            Phase::Sources => Step::Perform(
                Action::Run(convert_path(cfg, self.sources[self.translated.len()].as_str())),
            ),
            Phase::Loose => match &self.candidates[self.loose.len()] {
                Some(p) => Step::Perform(Action::Run(convert_path(cfg, p.as_str()))),
                None => Step::Exit(Err(InvokeError::Conversion)),
            },
            Phase::Forward => {
                let mut a = clone_strings(&self.args);
                modify_args(&mut a, &self.translated, &self.loose);
                Step::Perform(Action::Run(execute_wrapped(cfg, &a)))
            },
            Phase::Exited(c) => Step::Exit(Ok(c)),
            Phase::Failed(e) => Step::Exit(Err(e)),
        }
    }

    /// Moves past conversion phases with nothing left to ask for.
    fn settle(&mut self)
        requires
            old(self).holds(),
            old(self).phase is Sources || old(self).phase is Loose,
        ensures
            final(self).wf(),
            final(self).args@ == old(self).args@,
            final(self).sources@ == old(self).sources@,
            final(self).translated@ == old(self).translated@,
            final(self).forwarding == old(self).forwarding,
            final(self).maintenance@ == old(self).maintenance@,
            final(self).done_steps == old(self).done_steps,
            final(self).rebuild == old(self).rebuild,
            final(self).phase is Sources || final(self).phase is Loose || final(self).phase is Forward,
            old(self).phase is Loose ==> {
                &&& !(final(self).phase is Sources)
                &&& final(self).loose@.len() >= old(self).loose@.len()
                &&& forall|i: int|
                    0 <= i < old(self).loose@.len() ==> final(self).loose@[i] == old(self).loose@[i]
            },
    {
        if matches!(self.phase, Phase::Sources) && self.translated.len() == self.sources.len() {
            self.candidates = loose_candidates(&self.args, &self.translated);
            self.loose = Vec::new();
            self.phase = Phase::Loose;
        }
        if matches!(self.phase, Phase::Loose) {
            let ghost before = self.loose@;
            while self.loose.len() < self.args.len() && self.candidates[self.loose.len()].is_none()
                invariant
                    self.holds(),
                    self.phase is Loose,
                    self.args@ == old(self).args@,
                    self.sources@ == old(self).sources@,
                    self.translated@ == old(self).translated@,
                    self.forwarding == old(self).forwarding,
                    self.maintenance@ == old(self).maintenance@,
                    self.done_steps == old(self).done_steps,
                    self.rebuild == old(self).rebuild,
                    self.loose@.len() >= before.len(),
                    forall|i: int| 0 <= i < before.len() ==> self.loose@[i] == before[i],
                    old(self).phase is Loose ==> before == old(self).loose@,
                decreases self.args@.len() - self.loose@.len(),
            {
                self.loose.push(None);
            }
            if self.loose.len() == self.args.len() {
                self.phase = Phase::Forward;
            }
        }
    }

    /// Takes in what came of the action last asked for.
    pub fn record(&mut self, report: Report)
        requires
            old(self).wf(),
        ensures
            final(self).wf(),
            final(self).args@ == old(self).args@,
            final(self).sources@ == old(self).sources@,
            final(self).forwarding == old(self).forwarding,
            final(self).maintenance@ == old(self).maintenance@,
            final(self).rebuild == old(self).rebuild,
            old(self).phase is Exited || old(self).phase is Failed ==> final(self).phase
                == old(self).phase,
            // Conversions and forwarding come only once the engine is ready.
            final(self).phase is Sources || final(self).phase is Loose || final(self).phase is Forward
                ==> (old(self).phase is Sources || old(self).phase is Loose || old(self).phase is Forward
                || (old(self).phase matches Phase::Readiness(s) && next_stage(s, report.outcome)
                == Stage::Ready)),
            old(self).phase is Maintenance && report.outcome is Fault ==> final(self).phase
                == Phase::Failed(InvokeError::Setup(SetupError::Launch)),
            old(self).phase is Maintenance && !(report.outcome is Fault) ==> final(self).done_steps
                == old(self).done_steps + 1 && final(self).phase == (if final(self).done_steps
                == old(self).maintenance@.len() {
                match old(self).rebuild {
                    Some(s) => Phase::Readiness(s),
                    None => Phase::Exited(0),
                }
            } else {
                Phase::Maintenance
            }),
            match old(self).phase {
                Phase::Readiness(s) => match next_stage(s, report.outcome) {
                    Stage::Failed(e) => final(self).phase == Phase::Failed(InvokeError::Setup(e)),
                    Stage::Ready => if old(self).forwarding {
                        final(self).phase is Sources || final(self).phase is Loose
                            || final(self).phase is Forward
                    } else {
                        final(self).phase == Phase::Exited(0)
                    },
                    n => final(self).phase == Phase::Readiness(n),
                },
                _ => true,
            },
            !(old(self).phase is Sources) ==> final(self).translated@ == old(self).translated@,
            old(self).phase is Sources && !(report.outcome is Success) ==> final(self).phase
                == Phase::Failed(InvokeError::Conversion),
            old(self).phase is Sources && report.outcome is Success ==> texts(final(self).translated@)
                == texts(old(self).translated@).push(trim_of(report.output@)),
            old(self).phase is Loose ==> {
                &&& final(self).loose@.len() > old(self).loose@.len()
                &&& opt_text(final(self).loose@[old(self).loose@.len() as int]) == (
                if report.outcome is Success {
                    Some(trim_of(report.output@))
                } else {
                    None
                })
                &&& forall|i: int|
                    0 <= i < old(self).loose@.len() ==> final(self).loose@[i] == old(self).loose@[i]
            },
            old(self).phase is Forward ==> final(self).phase == Phase::Exited(
                exit_code_of(report.code),
            ),
    {
        match self.phase {
            Phase::Maintenance => match report.outcome {
                Outcome::Fault => {
                    self.phase = Phase::Failed(InvokeError::Setup(SetupError::Launch));
                },
                _ => {
                    assert(self.done_steps < self.maintenance.len());
                    self.done_steps = self.done_steps + 1;
                    if self.done_steps == self.maintenance.len() {
                        self.phase = match self.rebuild {
                            Some(s) => Phase::Readiness(s),
                            None => Phase::Exited(0),
                        };
                    }
                },
            },
            Phase::Readiness(s) => {
                let n = advance(s, report.outcome);
                match n {
                    Stage::Ready => {
                        if self.forwarding {
                            self.phase = Phase::Sources;
                            self.settle();
                        } else {
                            self.phase = Phase::Exited(0);
                        }
                    },
                    Stage::Failed(e) => {
                        self.phase = Phase::Failed(InvokeError::Setup(e));
                    },
                    _ => {
                        self.phase = Phase::Readiness(n);
                    },
                }
            },
            Phase::Sources => match converted_path(report.outcome, report.output.as_str()) {
                Some(t) => {
                    self.translated.push(t);
                    self.settle();
                },
                None => {
                    self.phase = Phase::Failed(InvokeError::Conversion);
                },
            },
            Phase::Loose => {
                let c = converted_path(report.outcome, report.output.as_str());
                self.loose.push(c);
                self.settle();
            },
            Phase::Forward => {
                self.phase = Phase::Exited(crate::dispatch::forwarded_exit_code(report.code));
            },
            Phase::Exited(_) => {},
            Phase::Failed(_) => {},
        }
    }
}

} // verus!
