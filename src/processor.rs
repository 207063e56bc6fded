use vstd::prelude::*;
use crate::parsers::ProcessorArgs;
use crate::value::ConfigValue;

verus! {

/// The text views of a list of strings.
pub open spec fn texts(v: Seq<String>) -> Seq<Seq<char>> {
    v.map_values(|s: String| s@)
}

/// An external program together with its arguments.
#[derive(Debug, PartialEq, Eq)]
pub struct ExternalCommand {
    pub program: String,
    pub args: Vec<String>,
}

/// `c` runs `program` with the arguments `args`.
pub open spec fn command_is(c: ExternalCommand, program: Seq<char>, args: Seq<Seq<char>>) -> bool {
    c.program@ == program && texts(c.args@) == args
}

/// What a processor asks to have run: one command whose success decides the
/// outcome, and an optional cleanup command whose result is ignored.
#[derive(Debug, PartialEq, Eq)]
pub struct ProcessPlan {
    pub command: ExternalCommand,
    pub cleanup: Option<ExternalCommand>,
}

/// Why a processor refuses a configuration entry.
#[derive(Debug, PartialEq, Eq, Structural)]
pub enum ProcessError {
    /// The mandatory `source` parameter is absent.
    MissingSource,
    /// The `source` parameter is present but is not text.
    SourceNotText,
    /// The `branch` parameter is present but is not text.
    BranchNotText,
}

/// Where a run of a plan stands: the next command to run, or the outcome.
#[derive(Debug, PartialEq, Eq, Structural)]
pub enum Step {
    RunCommand,
    RunCleanup,
    Finish(bool),
}

/// The step that follows `done`, once it has ended with `succeeded`.
pub open spec fn next_step(plan: ProcessPlan, done: Step, succeeded: bool) -> Step {
    match done {
        Step::RunCommand => if !succeeded {
            Step::Finish(false)
        } else if plan.cleanup is Some {
            Step::RunCleanup
        } else {
            Step::Finish(true)
        },
        Step::RunCleanup => Step::Finish(true),
        Step::Finish(b) => Step::Finish(b),
    }
}

/// The outcome of running `plan` when its command ends with `command_ok` and
/// its cleanup, if it runs, with `cleanup_ok`.
pub open spec fn run_outcome(plan: ProcessPlan, command_ok: bool, cleanup_ok: bool) -> Step {
    let s = next_step(plan, Step::RunCommand, command_ok);
    if s == Step::RunCleanup {
        next_step(plan, Step::RunCleanup, cleanup_ok)
    } else {
        s
    }
}

impl ProcessPlan {
    /// The first step of every run: the main command.
    pub fn first_step(&self) -> (r: Step)
        ensures
            r == Step::RunCommand,
    {
        Step::RunCommand
    }

    /// The step after `done` has ended with `succeeded`. A failed command ends
    /// the run with `false`; after a successful one the cleanup runs, and the
    /// run ends with `true` whatever the cleanup reports.
    pub fn next(&self, done: Step, succeeded: bool) -> (r: Step)
        ensures
            r == next_step(*self, done, succeeded),
    {
        match done {
            Step::RunCommand => {
                if !succeeded {
                    Step::Finish(false)
                } else if self.cleanup.is_some() {
                    Step::RunCleanup
                } else {
                    Step::Finish(true)
                }
            },
            Step::RunCleanup => Step::Finish(true),
            Step::Finish(b) => Step::Finish(b),
        }
    }
}

/// The outcome of a run is the success of its main command; the cleanup
/// never changes it.
pub proof fn lemma_outcome_is_command_result(plan: ProcessPlan, command_ok: bool, cleanup_ok: bool)
    ensures
        run_outcome(plan, command_ok, cleanup_ok) == Step::Finish(command_ok),
        run_outcome(plan, command_ok, cleanup_ok) == run_outcome(plan, command_ok, !cleanup_ok),
{
}

/// A failed main command ends the run with `false` and runs no cleanup.
pub proof fn lemma_failed_command_fails(plan: ProcessPlan)
    ensures
        next_step(plan, Step::RunCommand, false) == Step::Finish(false),
{
}

/// A failed cleanup after a successful command still ends the run with `true`.
pub proof fn lemma_failed_cleanup_succeeds(plan: ProcessPlan)
    requires
        plan.cleanup is Some,
    ensures
        next_step(plan, Step::RunCommand, true) == Step::RunCleanup,
        next_step(plan, Step::RunCleanup, false) == Step::Finish(true),
{
}

/// The capability set of a template processor.
pub trait Processor {
    /// The name under which the processor is registered and configured.
    spec fn kind_name(&self) -> Seq<char>;

    /// Whether `r` is what the processor answers to a request and a
    /// configuration entry.
    spec fn plans(
        &self,
        prog_args: ProcessorArgs,
        config: ConfigValue,
        r: Result<ProcessPlan, ProcessError>,
    ) -> bool;

    fn types(&self) -> (r: String)
        ensures
            r@ == self.kind_name(),
    ;

    /// Usage text for the processor's configuration.
    spec fn usage(&self) -> Seq<char>;

    fn help(&self) -> (r: String)
        ensures
            r@ == self.usage(),
    ;

    /// Reads the configuration entry and plans the commands that realise the
    /// template.
    fn process(&self, prog_args: ProcessorArgs, config: &ConfigValue) -> (r: Result<
        ProcessPlan,
        ProcessError,
    >)
        ensures
            self.plans(prog_args, *config, r),
    ;
}

} // verus!
