//! The course of one build.
//!
//! A build resolves the environment, probes the toolchain, then compiles,
//! extracts the raw binary image and removes the compiler's output. Each of
//! these asks something of the outside world. The [`Driver`] performs none of
//! it: it keeps what the world answered so far, says from that alone what is
//! to be asked next, and takes the answer as an [`Event`].

use crate::cc::args::{with_default_output, Options, OptionsView};
use crate::cc::banner::{print_usage, usage};
use crate::cc::env::{
    check_env_path, check_req_env, path_check, print_variable_prompt,
    print_variable_report, resolve, variable_prompt, variable_report, EnvLookup, EnvLookupView,
    EnvironmentError, EnvironmentErrorView, Resolve, ResolveView, RishkaEnv, RishkaEnvView,
};
use crate::cc::io::{gpp_output, gpp_output_path};
use crate::cc::process::{
    check_req_deps, compile_result, dep_prompt, dep_report, gpp_command, gpp_invocation,
    objcopy_command, objcopy_invocation, outcome_view, print_dep_prompt, print_dep_report,
    probing, required_programs, run_riscv64_gpp, run_riscv64_objcopy, succeeded, test_process,
    Ended, EndedView, Invocation, InvocationView, Probe, ProbeView, ToolchainError,
    ToolchainErrorView,
};
use crate::text::{Span, SpanView};
use vstd::prelude::*;
use vstd::string::*;

verus! {

/// Why the pipeline stopped before its end.
#[derive(Clone, Debug, PartialEq, Eq)]
pub enum PipelineError {
    /// The compiler failed or could not be started; with its diagnostics.
    CompileFailed(String),
    /// The extraction of the raw binary image failed.
    ExtractFailed,
    /// The compiler's output could not be removed.
    CleanupFailed,
}

/// What a [`PipelineError`] is.
pub enum PipelineErrorView {
    CompileFailed(Seq<char>),
    ExtractFailed,
    CleanupFailed,
}

impl View for PipelineError {
    type V = PipelineErrorView;

    open spec fn view(&self) -> PipelineErrorView {
        match self {
            PipelineError::CompileFailed(diagnostics) => PipelineErrorView::CompileFailed(
                diagnostics@,
            ),
            PipelineError::ExtractFailed => PipelineErrorView::ExtractFailed,
            PipelineError::CleanupFailed => PipelineErrorView::CleanupFailed,
        }
    }
}

/// Why a build ended without its product.
#[derive(Clone, Debug, PartialEq, Eq)]
pub enum BuildError {
    /// The options name no input file.
    Usage,
    /// The environment does not give the build its directories.
    Environment(EnvironmentError),
    /// A program of the toolchain does not answer.
    Toolchain(ToolchainError),
    /// A stage of the pipeline failed.
    Pipeline(PipelineError),
}

/// What a [`BuildError`] is.
pub enum BuildErrorView {
    Usage,
    Environment(EnvironmentErrorView),
    Toolchain(ToolchainErrorView),
    Pipeline(PipelineErrorView),
}

impl View for BuildError {
    type V = BuildErrorView;

    open spec fn view(&self) -> BuildErrorView {
        match self {
            BuildError::Usage => BuildErrorView::Usage,
            BuildError::Environment(error) => BuildErrorView::Environment(error@),
            BuildError::Toolchain(error) => BuildErrorView::Toolchain(error@),
            BuildError::Pipeline(error) => BuildErrorView::Pipeline(error@),
        }
    }
}

/// Where a build stands.
///
/// While the environment is resolved and the toolchain probed, the pipeline
/// is idle. It then compiles, extracts and cleans up, in that order, and is
/// done. A failure at any point is final.
#[derive(Clone, Debug, PartialEq, Eq)]
pub enum Stage {
    /// The variable of this name is to be looked up.
    Resolving(String),
    /// This version probe is to be run.
    Probing(Invocation),
    /// The compile command, this one, is to be run.
    Compiling(Invocation),
    /// The extraction command, this one, is to be run.
    Extracting(Invocation),
    /// The compiler's output, at this path, is to be removed.
    CleaningUp(String),
    /// The build has its product.
    Done,
    /// The build ended without its product.
    Failed(BuildError),
}

/// What a [`Stage`] is.
pub enum StageView {
    Resolving(Seq<char>),
    Probing(InvocationView),
    Compiling(InvocationView),
    Extracting(InvocationView),
    CleaningUp(Seq<char>),
    Done,
    Failed(BuildErrorView),
}

impl View for Stage {
    type V = StageView;

    open spec fn view(&self) -> StageView {
        match self {
            Stage::Resolving(name) => StageView::Resolving(name@),
            Stage::Probing(command) => StageView::Probing(command@),
            Stage::Compiling(command) => StageView::Compiling(command@),
            Stage::Extracting(command) => StageView::Extracting(command@),
            Stage::CleaningUp(path) => StageView::CleaningUp(path@),
            Stage::Done => StageView::Done,
            Stage::Failed(error) => StageView::Failed(error@),
        }
    }
}

/// What a build asks of the outside world.
#[derive(Clone, Debug, PartialEq, Eq)]
pub enum Action {
    /// Look up the environment variable of this name, and the metadata of the
    /// path it holds.
    Lookup(String),
    /// Run this command and wait for its end.
    Spawn(Invocation),
    /// Remove the file at this path.
    Remove(String),
    /// Leave, with this exit code.
    Exit(i32),
}

/// What an [`Action`] is.
pub enum ActionView {
    Lookup(Seq<char>),
    Spawn(InvocationView),
    Remove(Seq<char>),
    Exit(int),
}

impl View for Action {
    type V = ActionView;

    open spec fn view(&self) -> ActionView {
        match self {
            Action::Lookup(name) => ActionView::Lookup(name@),
            Action::Spawn(command) => ActionView::Spawn(command@),
            Action::Remove(path) => ActionView::Remove(path@),
            Action::Exit(code) => ActionView::Exit(*code as int),
        }
    }
}

/// What the outside world answers.
#[derive(Clone, Debug, PartialEq, Eq)]
pub enum Event {
    /// A variable was looked up.
    Looked(EnvLookup),
    /// A command was run: how it ended, or `None` when it could not be
    /// started.
    Spawned(Option<Ended>),
    /// The removal of a file was tried: whether it succeeded.
    Removed(bool),
}

/// What an [`Event`] is.
pub enum EventView {
    Looked(EnvLookupView),
    Spawned(Option<EndedView>),
    Removed(bool),
}

impl View for Event {
    type V = EventView;

    open spec fn view(&self) -> EventView {
        match self {
            Event::Looked(lookup) => EventView::Looked(lookup@),
            Event::Spawned(outcome) => EventView::Spawned(outcome_view(*outcome)),
            Event::Removed(removed) => EventView::Removed(*removed),
        }
    }
}

/// What follows an event: the text to show, then the action to perform.
#[derive(Clone, Debug, PartialEq, Eq)]
pub struct Step {
    pub say: Vec<Span>,
    pub action: Action,
}

/// What a [`Step`] is.
pub struct StepView {
    pub say: Seq<SpanView>,
    pub action: ActionView,
}

impl View for Step {
    type V = StepView;

    open spec fn view(&self) -> StepView {
        StepView { say: self.say.deep_view(), action: self.action@ }
    }
}

/// The result of a build that has ended.
#[derive(Clone, Debug, PartialEq, Eq)]
pub struct BuildResult {
    pub succeeded: bool,
    /// What the compiler wrote to its standard error stream, where the build
    /// failed in it; empty otherwise.
    pub diagnostics: String,
}

/// What a [`BuildResult`] is.
pub struct BuildResultView {
    pub succeeded: bool,
    pub diagnostics: Seq<char>,
}

impl View for BuildResult {
    type V = BuildResultView;

    open spec fn view(&self) -> BuildResultView {
        BuildResultView { succeeded: self.succeeded, diagnostics: self.diagnostics@ }
    }
}

/// A build: its options, and what the outside world answered so far.
#[derive(Clone, Debug, PartialEq, Eq)]
pub struct Driver {
    pub options: Options,
    /// What was found for the variables looked up, in order.
    pub lookups: Vec<EnvLookup>,
    /// The outcomes of the version probes, in order.
    pub probes: Vec<Option<Ended>>,
    /// The outcomes of the pipeline's commands: the compiler's, then that of
    /// the extraction.
    pub runs: Vec<Option<Ended>>,
    /// Whether the removal of the compiler's output succeeded.
    pub removals: Vec<bool>,
}

/// What a [`Driver`] is.
pub struct DriverView {
    pub options: OptionsView,
    pub lookups: Seq<EnvLookupView>,
    pub probes: Seq<Option<EndedView>>,
    pub runs: Seq<Option<EndedView>>,
    pub removals: Seq<bool>,
}

impl View for Driver {
    type V = DriverView;

    open spec fn view(&self) -> DriverView {
        DriverView {
            options: self.options@,
            lookups: self.lookups.deep_view(),
            probes: self.probes.deep_view(),
            runs: self.runs.deep_view(),
            removals: self.removals@,
        }
    }
}

/// Where the pipeline stands after the given outcomes of its commands and of
/// the removal.
///
/// Options without an input file end the pipeline before it runs anything.
/// Else the compile command comes first; the extraction is run only after a
/// successful compile, and the compiler's output is removed only after a
/// successful extraction. The first outcome that is no success ends the
/// pipeline, and nothing after it is looked at.
pub open spec fn pipeline(
    options: OptionsView,
    env: RishkaEnvView,
    runs: Seq<Option<EndedView>>,
    removals: Seq<bool>,
) -> StageView {
    if options.files.len() == 0 {
        StageView::Failed(BuildErrorView::Usage)
    } else if runs.len() == 0 {
        StageView::Compiling(gpp_invocation(options, env))
    } else if !compile_result(runs[0]).0 {
        StageView::Failed(
            BuildErrorView::Pipeline(PipelineErrorView::CompileFailed(compile_result(runs[0]).1)),
        )
    } else if runs.len() == 1 {
        StageView::Extracting(objcopy_invocation(options))
    } else if !succeeded(runs[1]) {
        StageView::Failed(BuildErrorView::Pipeline(PipelineErrorView::ExtractFailed))
    } else if removals.len() == 0 {
        StageView::CleaningUp(gpp_output(options))
    } else if !removals[0] {
        StageView::Failed(BuildErrorView::Pipeline(PipelineErrorView::CleanupFailed))
    } else {
        StageView::Done
    }
}

/// The exit code of a build that ended in the given stage: 0, also after a
/// failure.
pub open spec fn exit_code(stage: StageView) -> int {
    0
}

impl StageView {
    /// What the stage asks of the outside world. A build that has ended asks
    /// to leave.
    pub open spec fn action(self) -> ActionView {
        match self {
            StageView::Resolving(name) => ActionView::Lookup(name),
            StageView::Probing(command) => ActionView::Spawn(command),
            StageView::Compiling(command) => ActionView::Spawn(command),
            StageView::Extracting(command) => ActionView::Spawn(command),
            StageView::CleaningUp(path) => ActionView::Remove(path),
            StageView::Done => ActionView::Exit(exit_code(self)),
            StageView::Failed(_) => ActionView::Exit(exit_code(self)),
        }
    }

    /// The result of a build in this stage, once the build has ended.
    pub open spec fn result(self) -> Option<BuildResultView> {
        match self {
            StageView::Done => Some(
                BuildResultView { succeeded: true, diagnostics: Seq::empty() },
            ),
            StageView::Failed(BuildErrorView::Pipeline(PipelineErrorView::CompileFailed(text))) => {
                Some(BuildResultView { succeeded: false, diagnostics: text })
            },
            StageView::Failed(_) => Some(
                BuildResultView { succeeded: false, diagnostics: Seq::empty() },
            ),
            _ => None,
        }
    }

    /// Whether the build has ended.
    pub open spec fn ended(self) -> bool {
        self is Done || self is Failed
    }
}

impl DriverView {
    /// Where the build stands.
    ///
    /// Options without an input file end the build at once. Else the
    /// environment is resolved; once it is, the toolchain is probed; once
    /// every program answered, the pipeline runs.
    pub open spec fn stage(self) -> StageView {
        if self.options.files.len() == 0 {
            StageView::Failed(BuildErrorView::Usage)
        } else {
            match resolve(self.lookups) {
                ResolveView::Lookup(name) => StageView::Resolving(name),
                ResolveView::Failed(error) => StageView::Failed(BuildErrorView::Environment(error)),
                ResolveView::Resolved(env) => match probing(required_programs(), self.probes) {
                    ProbeView::Run(command) => StageView::Probing(command),
                    ProbeView::Missing(error) => StageView::Failed(
                        BuildErrorView::Toolchain(error),
                    ),
                    ProbeView::Installed => pipeline(self.options, env, self.runs, self.removals),
                },
            }
        }
    }
}

/// The words that every failed stage of the pipeline is reported with.
pub open spec fn went_wrong() -> Seq<SpanView> {
    seq![SpanView::of("something went "@), SpanView::of("wrong"@).red().bold()]
}

/// What is said of the compiler once it has run: after a failure, its
/// diagnostics follow on a line of their own.
pub open spec fn compile_report(result: (bool, Seq<char>)) -> Seq<SpanView> {
    if result.0 {
        seq![SpanView::of("done"@).yellow().bold(), SpanView::of("!\n"@)]
    } else {
        went_wrong().push(SpanView::of(".\n"@ + result.1 + "\n"@))
    }
}

/// What is said of the extraction once it has run.
pub open spec fn extract_report(extracted: bool) -> Seq<SpanView> {
    if extracted {
        seq![SpanView::of("done"@).yellow().bold(), SpanView::of("!\n"@)]
    } else {
        went_wrong().push(SpanView::of(".\n"@))
    }
}

/// What is said of the removal once it was tried.
pub open spec fn cleanup_report(removed: bool) -> Seq<SpanView> {
    if removed {
        seq![SpanView::of("deleted"@).yellow().bold(), SpanView::of("!\n"@)]
    } else {
        went_wrong().push(SpanView::of(".\n"@))
    }
}

/// What is said when a stage is entered: what is about to be done, or that
/// the task is done. Options without an input file are answered with the
/// usage text; any other failure was reported when it was found.
pub open spec fn announcement(stage: StageView) -> Seq<SpanView> {
    match stage {
        StageView::Resolving(name) => variable_prompt(name),
        StageView::Probing(command) => dep_prompt(command.program),
        StageView::Compiling(_) => seq![
            SpanView::of("Building"@).blue().bold(),
            SpanView::of(" ELF binary from sources... "@),
        ],
        StageView::Extracting(_) => seq![
            SpanView::of("Generating"@).blue().bold(),
            SpanView::of(" raw binary output from ELF file... "@),
        ],
        StageView::CleaningUp(_) => seq![
            SpanView::of("Deleting"@).red().bold(),
            SpanView::of(" ELF binary output file... "@),
        ],
        StageView::Done => seq![
            SpanView::of("Task "@),
            SpanView::of("done"@).green().bold(),
            SpanView::of("!\n"@),
        ],
        StageView::Failed(BuildErrorView::Usage) => usage(),
        StageView::Failed(_) => Seq::empty(),
    }
}

/// The step that follows once `after` holds what the world answered: the
/// report on the answer, then what the stage now reached has to say, and the
/// action it asks for.
pub open spec fn follow(after: DriverView, report: Seq<SpanView>) -> (DriverView, StepView) {
    (after, StepView { say: report + announcement(after.stage()), action: after.stage().action() })
}

/// The build after an event, and the step that follows it.
///
/// An event that answers what the build asked for is kept and reported. Any
/// other event changes nothing and is passed over in silence: the build asks
/// again for what it waits for.
pub open spec fn advance(driver: DriverView, event: EventView) -> (DriverView, StepView) {
    match (driver.stage(), event) {
        (StageView::Resolving(name), EventView::Looked(lookup)) => follow(
            DriverView { lookups: driver.lookups.push(lookup), ..driver },
            variable_report(name, path_check(name, lookup)),
        ),
        (StageView::Probing(_), EventView::Spawned(outcome)) => follow(
            DriverView { probes: driver.probes.push(outcome), ..driver },
            dep_report(succeeded(outcome)),
        ),
        (StageView::Compiling(_), EventView::Spawned(outcome)) => follow(
            DriverView { runs: driver.runs.push(outcome), ..driver },
            compile_report(compile_result(outcome)),
        ),
        (StageView::Extracting(_), EventView::Spawned(outcome)) => follow(
            DriverView { runs: driver.runs.push(outcome), ..driver },
            extract_report(succeeded(outcome)),
        ),
        (StageView::CleaningUp(_), EventView::Removed(removed)) => follow(
            DriverView { removals: driver.removals.push(removed), ..driver },
            cleanup_report(removed),
        ),
        (stage, _) => (driver, StepView { say: Seq::empty(), action: stage.action() }),
    }
}

/// The build of the given options before any event, and its first step. An
/// output name left empty is replaced by the default.
pub open spec fn begin(options: OptionsView) -> (DriverView, StepView) {
    follow(
        DriverView {
            options: with_default_output(options),
            lookups: Seq::empty(),
            probes: Seq::empty(),
            runs: Seq::empty(),
            removals: Seq::empty(),
        },
        Seq::empty(),
    )
}

/// The words that every failed stage of the pipeline is reported with.
fn print_went_wrong() -> (out: Vec<Span>)
    ensures
        out.deep_view() == went_wrong(),
{
    let out = vec![Span::of("something went "), Span::of("wrong").red().bold()];
    assert(out.deep_view() =~= went_wrong());
    out
}

/// The text that is shown once the compiler has run.
pub fn print_compile_report(compiled: bool, diagnostics: &str) -> (out: Vec<Span>)
    ensures
        out.deep_view() == compile_report((compiled, diagnostics@)),
{
    if compiled {
        let out = vec![Span::of("done").yellow().bold(), Span::of("!\n")];
        assert(out.deep_view() =~= compile_report((compiled, diagnostics@)));
        out
    } else {
        let mut out = print_went_wrong();
        let text = String::from_str(".\n").concat(diagnostics).concat("\n");
        out.push(Span::of(text.as_str()));
        assert(out.deep_view() =~= compile_report((compiled, diagnostics@)));
        out
    }
}

/// The text that is shown once the extraction has run.
pub fn print_extract_report(extracted: bool) -> (out: Vec<Span>)
    ensures
        out.deep_view() == extract_report(extracted),
{
    if extracted {
        let out = vec![Span::of("done").yellow().bold(), Span::of("!\n")];
        assert(out.deep_view() =~= extract_report(extracted));
        out
    } else {
        let mut out = print_went_wrong();
        out.push(Span::of(".\n"));
        assert(out.deep_view() =~= extract_report(extracted));
        out
    }
}

/// The text that is shown once the removal was tried.
pub fn print_cleanup_report(removed: bool) -> (out: Vec<Span>)
    ensures
        out.deep_view() == cleanup_report(removed),
{
    if removed {
        let out = vec![Span::of("deleted").yellow().bold(), Span::of("!\n")];
        assert(out.deep_view() =~= cleanup_report(removed));
        out
    } else {
        let mut out = print_went_wrong();
        out.push(Span::of(".\n"));
        assert(out.deep_view() =~= cleanup_report(removed));
        out
    }
}

/// The text that is shown when a stage is entered.
pub fn print_announcement(stage: &Stage) -> (out: Vec<Span>)
    ensures
        out.deep_view() == announcement(stage@),
{
    let out = match stage {
        Stage::Resolving(name) => print_variable_prompt(name.as_str()),
        Stage::Probing(command) => print_dep_prompt(command.program.as_str()),
        Stage::Compiling(_) => vec![
            Span::of("Building").blue().bold(),
            Span::of(" ELF binary from sources... "),
        ],
        Stage::Extracting(_) => vec![
            Span::of("Generating").blue().bold(),
            Span::of(" raw binary output from ELF file... "),
        ],
        Stage::CleaningUp(_) => vec![
            Span::of("Deleting").red().bold(),
            Span::of(" ELF binary output file... "),
        ],
        Stage::Done => vec![Span::of("Task "), Span::of("done").green().bold(), Span::of("!\n")],
        Stage::Failed(BuildError::Usage) => print_usage(),
        Stage::Failed(_) => Vec::new(),
    };
    assert(out.deep_view() =~= announcement(stage@));
    out
}

/// Says where the pipeline stands, given the outcomes of the commands run so
/// far and of the removal, in order.
///
/// Options without an input file are answered with [`BuildError::Usage`],
/// and nothing is run. Else the stages are compile, extract and cleanup. Each
/// is entered only after the one before it succeeded, and the first failure
/// is final: a compiler that failed leaves its diagnostics in
/// [`PipelineError::CompileFailed`].
pub fn compile_task(
    argv: &Options,
    envvars: &RishkaEnv,
    runs: &Vec<Option<Ended>>,
    removals: &Vec<bool>,
) -> (stage: Stage)
    ensures
        stage@ == pipeline(argv@, envvars@, runs.deep_view(), removals@),
{
    if argv.files.len() == 0 {
        return Stage::Failed(BuildError::Usage);
    }
    if runs.len() == 0 {
        return Stage::Compiling(gpp_command(argv, envvars));
    }
    let (compiled, err) = run_riscv64_gpp(&runs[0]);
    if !compiled {
        return Stage::Failed(BuildError::Pipeline(PipelineError::CompileFailed(err)));
    }
    if runs.len() == 1 {
        return Stage::Extracting(objcopy_command(argv));
    }
    if !run_riscv64_objcopy(&runs[1]) {
        return Stage::Failed(BuildError::Pipeline(PipelineError::ExtractFailed));
    }
    if removals.len() == 0 {
        return Stage::CleaningUp(gpp_output_path(argv));
    }
    if !removals[0] {
        return Stage::Failed(BuildError::Pipeline(PipelineError::CleanupFailed));
    }
    Stage::Done
}

impl Stage {
    /// What the stage asks of the outside world.
    pub fn action(self) -> (action: Action)
        ensures
            action@ == self@.action(),
    {
        match self {
            Stage::Resolving(name) => Action::Lookup(name),
            Stage::Probing(command) => Action::Spawn(command),
            Stage::Compiling(command) => Action::Spawn(command),
            Stage::Extracting(command) => Action::Spawn(command),
            Stage::CleaningUp(path) => Action::Remove(path),
            Stage::Done => Action::Exit(0),
            Stage::Failed(_) => Action::Exit(0),
        }
    }

    /// The step that says nothing and asks for what the stage waits for.
    pub fn ask_again(self) -> (step: Step)
        ensures
            step@ == (StepView { say: Seq::empty(), action: self@.action() }),
    {
        let step = Step { say: Vec::new(), action: self.action() };
        assert(step.say.deep_view() =~= Seq::empty());
        step
    }

    /// The result of the build, once it has ended; `None` while it runs.
    pub fn result(&self) -> (result: Option<BuildResult>)
        ensures
            match result {
                Some(result) => self@.result() == Some(result@),
                None => self@.result() is None,
            },
    {
        match self {
            Stage::Done => Some(BuildResult { succeeded: true, diagnostics: String::new() }),
            Stage::Failed(BuildError::Pipeline(PipelineError::CompileFailed(text))) => Some(
                BuildResult { succeeded: false, diagnostics: text.clone() },
            ),
            Stage::Failed(_) => Some(BuildResult { succeeded: false, diagnostics: String::new() }),
            _ => None,
        }
    }
}

impl Driver {
    /// A build of the given options, and its first step.
    ///
    /// Options without an input file end the build at once, with the usage
    /// text. An output name left empty is replaced by the default.
    pub fn new(options: Options) -> (start: (Driver, Step))
        ensures
            (start.0@, start.1@) == begin(options@),
    {
        let driver = Driver {
            options: options.or_default_output(),
            lookups: Vec::new(),
            probes: Vec::new(),
            runs: Vec::new(),
            removals: Vec::new(),
        };
        assert(driver@.lookups =~= Seq::empty());
        assert(driver@.probes =~= Seq::empty());
        assert(driver@.runs =~= Seq::empty());
        let stage = driver.stage();
        let say = print_announcement(&stage);
        assert(say.deep_view() =~= Seq::<SpanView>::empty() + announcement(stage@));
        let step = Step { say, action: stage.action() };
        (driver, step)
    }

    /// Where the build stands.
    pub fn stage(&self) -> (stage: Stage)
        ensures
            stage@ == self@.stage(),
    {
        if self.options.files.len() == 0 {
            return Stage::Failed(BuildError::Usage);
        }
        match check_req_env(&self.lookups) {
            Resolve::Lookup(name) => Stage::Resolving(name),
            Resolve::Failed(error) => Stage::Failed(BuildError::Environment(error)),
            Resolve::Resolved(envvars) => match check_req_deps(&self.probes) {
                Probe::Run(command) => Stage::Probing(command),
                Probe::Missing(error) => Stage::Failed(BuildError::Toolchain(error)),
                Probe::Installed => compile_task(
                    &self.options,
                    &envvars,
                    &self.runs,
                    &self.removals,
                ),
            },
        }
    }

    /// Takes what the outside world answered, and says what follows.
    ///
    /// An event that answers what the build asked for is kept and reported;
    /// the text ends with what the stage then reached has to say. Any other
    /// event changes nothing: the step is silent and asks again.
    pub fn step(&mut self, event: Event) -> (step: Step)
        ensures
            (final(self)@, step@) == advance(old(self)@, event@),
    {
        let before = self.stage();
        let mut say: Vec<Span>;
        match event {
            Event::Looked(lookup) => match before {
                Stage::Resolving(name) => {
                    let checked = check_env_path(name.as_str(), &lookup);
                    say = print_variable_report(name.as_str(), &checked);
                    self.lookups.push(lookup);
                    assert(self@.lookups =~= old(self)@.lookups.push(lookup@));
                },
                _ => {
                    return before.ask_again();
                },
            },
            Event::Spawned(outcome) => match before {
                Stage::Probing(_) => {
                    say = print_dep_report(test_process(&outcome));
                    self.probes.push(outcome);
                    assert(self@.probes =~= old(self)@.probes.push(outcome_view(outcome)));
                },
                Stage::Compiling(_) => {
                    let (compiled, err) = run_riscv64_gpp(&outcome);
                    say = print_compile_report(compiled, err.as_str());
                    self.runs.push(outcome);
                    assert(self@.runs =~= old(self)@.runs.push(outcome_view(outcome)));
                },
                Stage::Extracting(_) => {
                    say = print_extract_report(run_riscv64_objcopy(&outcome));
                    self.runs.push(outcome);
                    assert(self@.runs =~= old(self)@.runs.push(outcome_view(outcome)));
                },
                _ => {
                    return before.ask_again();
                },
            },
            Event::Removed(removed) => match before {
                Stage::CleaningUp(_) => {
                    say = print_cleanup_report(removed);
                    self.removals.push(removed);
                },
                _ => {
                    return before.ask_again();
                },
            },
        }
        let after = self.stage();
        let ghost report = say.deep_view();
        let mut rest = print_announcement(&after);
        say.append(&mut rest);
        assert(say.deep_view() =~= report + announcement(after@));
        Step { say, action: after.action() }
    }
}

} // verus!
