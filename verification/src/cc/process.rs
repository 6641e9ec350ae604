//! The commands that a build runs, and how their outcomes are read.

use crate::cc::args::{Options, OptionsView};
use crate::cc::env::{RishkaEnv, RishkaEnvView};
use crate::cc::io::{binary_output, binary_output_path, gpp_output, gpp_output_path};
use crate::text::{Span, SpanView};
use vstd::prelude::*;
use vstd::string::*;

verus! {

/// A command: the program to start and the arguments to start it with.
#[derive(Clone, Debug, PartialEq, Eq)]
pub struct Invocation {
    pub program: String,
    pub args: Vec<String>,
}

/// What an [`Invocation`] is.
pub struct InvocationView {
    pub program: Seq<char>,
    pub args: Seq<Seq<char>>,
}

impl View for Invocation {
    type V = InvocationView;

    open spec fn view(&self) -> InvocationView {
        InvocationView { program: self.program@, args: self.args.deep_view() }
    }
}

/// How a process ended.
#[derive(Clone, Debug, PartialEq, Eq)]
pub struct Ended {
    /// Whether the process reported success.
    pub success: bool,
    /// What the process wrote to its standard error stream.
    pub stderr: String,
}

/// What an [`Ended`] is.
pub struct EndedView {
    pub success: bool,
    pub stderr: Seq<char>,
}

impl View for Ended {
    type V = EndedView;

    open spec fn view(&self) -> EndedView {
        EndedView { success: self.success, stderr: self.stderr@ }
    }
}

impl DeepView for Ended {
    type V = EndedView;

    open spec fn deep_view(&self) -> EndedView {
        self@
    }
}

/// The outcome of running a command, with its text as a sequence of
/// characters: `None` when the process could not be started.
pub open spec fn outcome_view(outcome: Option<Ended>) -> Option<EndedView> {
    match outcome {
        Some(exit) => Some(exit@),
        None => None,
    }
}

/// A program that a build needs does not answer its version probe.
#[derive(Clone, Debug, PartialEq, Eq)]
pub enum ToolchainError {
    /// The program of this name could not be started, or did not report
    /// success.
    NotFound(String),
}

/// What a [`ToolchainError`] is.
pub enum ToolchainErrorView {
    NotFound(Seq<char>),
}

impl View for ToolchainError {
    type V = ToolchainErrorView;

    open spec fn view(&self) -> ToolchainErrorView {
        match self {
            ToolchainError::NotFound(name) => ToolchainErrorView::NotFound(name@),
        }
    }
}

/// Where the probing of the toolchain stands.
#[derive(Clone, Debug, PartialEq, Eq)]
pub enum Probe {
    /// This command is to be run next.
    Run(Invocation),
    /// Every program answered its probe.
    Installed,
    /// A program failed its probe; no further program is probed.
    Missing(ToolchainError),
}

/// What a [`Probe`] is.
pub enum ProbeView {
    Run(InvocationView),
    Installed,
    Missing(ToolchainErrorView),
}

impl View for Probe {
    type V = ProbeView;

    open spec fn view(&self) -> ProbeView {
        match self {
            Probe::Run(command) => ProbeView::Run(command@),
            Probe::Installed => ProbeView::Installed,
            Probe::Missing(error) => ProbeView::Missing(error@),
        }
    }
}

/// The name of the compiler.
pub open spec fn gpp_program() -> Seq<char> {
    "riscv64-unknown-elf-g++"@
}

/// The name of the tool that extracts the raw binary image.
pub open spec fn objcopy_program() -> Seq<char> {
    "riscv64-unknown-elf-objcopy"@
}

/// The programs that a build needs, in the order in which they are probed.
pub open spec fn required_programs() -> Seq<Seq<char>> {
    seq![gpp_program(), objcopy_program()]
}

/// The command that asks the program `name` for its version.
pub open spec fn version_command(name: Seq<char>) -> InvocationView {
    InvocationView { program: name, args: seq!["--version"@] }
}

/// Whether a process was started and reported success.
pub open spec fn succeeded(outcome: Option<EndedView>) -> bool {
    outcome is Some && outcome->0.success
}

/// The number of outcomes at the front that are successes, up to the first
/// that is not.
pub open spec fn leading_successes(outcomes: Seq<Option<EndedView>>) -> nat
    decreases outcomes.len(),
{
    if outcomes.len() > 0 && succeeded(outcomes.first()) {
        1 + leading_successes(outcomes.drop_first())
    } else {
        0
    }
}

/// Where the probing of `names` stands after the given outcomes, the outcome
/// at each place being that of the program at the same place.
///
/// The first program whose probe failed is reported, and nothing after it is
/// looked at. While no probe has failed, the next program without an outcome
/// is to be probed.
pub open spec fn probing(names: Seq<Seq<char>>, outcomes: Seq<Option<EndedView>>) -> ProbeView {
    let passed = leading_successes(outcomes) as int;
    if passed >= names.len() {
        ProbeView::Installed
    } else if passed < outcomes.len() {
        ProbeView::Missing(ToolchainErrorView::NotFound(names[passed]))
    } else {
        ProbeView::Run(version_command(names[passed]))
    }
}

/// The parts, with the separator between each two neighbours.
pub open spec fn joined(parts: Seq<Seq<char>>, separator: Seq<char>) -> Seq<char>
    decreases parts.len(),
{
    if parts.len() == 0 {
        Seq::empty()
    } else if parts.len() == 1 {
        parts[0]
    } else {
        joined(parts.drop_last(), separator) + separator + parts.last()
    }
}

/// The arguments that the caller's flags add to the compile command: none.
///
/// The flags are taken from the command line, and the compile command has
/// this one place for them, after its own switches and before the sources.
/// Whether the flags are meant to reach the compiler is not settled, so the
/// place stays empty whatever the flags are.
pub open spec fn spliced_flags(flags: Seq<char>) -> Seq<Seq<char>> {
    Seq::empty()
}

/// The arguments of the compile command.
///
/// The target and its ABI, no standard library, the optimisation level, the
/// linker script, the include path and the output path; then the place for
/// the caller's flags; then the library's sources, the launcher, and the
/// caller's files joined by single spaces into one argument.
pub open spec fn gpp_arguments(options: OptionsView, env: RishkaEnvView) -> Seq<Seq<char>> {
    seq![
        "-march=rv64im"@,
        "-mabi=lp64"@,
        "-nostdlib"@,
        "-O2"@,
        "-Wl,-T,"@ + env.scripts + "/link.ld"@,
        "-I"@ + env.library,
        "-o"@ + gpp_output(options),
    ] + spliced_flags(options.flags) + seq![
        env.library + "/*.cpp"@,
        env.scripts + "/launcher.s"@,
        joined(options.files, " "@),
    ]
}

/// The compile command.
pub open spec fn gpp_invocation(options: OptionsView, env: RishkaEnvView) -> InvocationView {
    InvocationView { program: gpp_program(), args: gpp_arguments(options, env) }
}

/// The command that extracts the raw binary image from the compiler's output.
pub open spec fn objcopy_invocation(options: OptionsView) -> InvocationView {
    InvocationView {
        program: objcopy_program(),
        args: seq!["-O"@, "binary"@, gpp_output(options), binary_output(options)],
    }
}

/// What a run of the compiler comes to: whether it succeeded, and the
/// diagnostics. The diagnostics are what a failed compiler wrote to its
/// standard error stream, unchanged; they are empty after a success and when
/// the compiler could not be started.
pub open spec fn compile_result(outcome: Option<EndedView>) -> (bool, Seq<char>) {
    match outcome {
        Some(exit) => if exit.success {
            (true, Seq::empty())
        } else {
            (false, exit.stderr)
        },
        None => (false, Seq::empty()),
    }
}

/// A count of successes at the front is met by any run of that many
/// successes, and is exact where the run ends in a failure or with the
/// outcomes.
pub proof fn lemma_leading_successes(outcomes: Seq<Option<EndedView>>, k: int)
    requires
        0 <= k <= outcomes.len(),
        forall|i: int| 0 <= i < k ==> succeeded(#[trigger] outcomes[i]),
    ensures
        leading_successes(outcomes) >= k,
        k == outcomes.len() || !succeeded(outcomes[k]) ==> leading_successes(outcomes) == k,
    decreases k,
{
    if k > 0 {
        let rest = outcomes.drop_first();
        assert(succeeded(outcomes[0]));
        assert forall|i: int| 0 <= i < k - 1 implies succeeded(#[trigger] rest[i]) by {
            assert(rest[i] == outcomes[i + 1]);
        }
        lemma_leading_successes(rest, k - 1);
        if k < outcomes.len() {
            assert(rest[k - 1] == outcomes[k]);
        }
    }
}

/// The successes counted at the front are successes, and the outcome that
/// follows them, where there is one, is none.
pub proof fn lemma_leading_successes_end(outcomes: Seq<Option<EndedView>>)
    ensures
        leading_successes(outcomes) <= outcomes.len(),
        forall|i: int| 0 <= i < leading_successes(outcomes) ==> succeeded(#[trigger] outcomes[i]),
        leading_successes(outcomes) < outcomes.len() ==> !succeeded(
            outcomes[leading_successes(outcomes) as int],
        ),
    decreases outcomes.len(),
{
    if outcomes.len() > 0 && succeeded(outcomes.first()) {
        let rest = outcomes.drop_first();
        lemma_leading_successes_end(rest);
        assert forall|i: int| 0 <= i < leading_successes(outcomes) implies succeeded(
            #[trigger] outcomes[i],
        ) by {
            if i > 0 {
                assert(outcomes[i] == rest[i - 1]);
            }
        }
        if leading_successes(outcomes) < outcomes.len() {
            assert(outcomes[leading_successes(outcomes) as int] == rest[leading_successes(
                rest,
            ) as int]);
        }
    }
}

/// Probing is fail-fast. Where every program has its outcome and the probe
/// of one of them failed, the probing is answered with the first program
/// whose probe failed: every program before it was found.
pub proof fn law_first_failed_probe_is_reported(
    names: Seq<Seq<char>>,
    outcomes: Seq<Option<EndedView>>,
    failed: int,
)
    requires
        outcomes.len() == names.len(),
        0 <= failed < names.len(),
        !succeeded(outcomes[failed]),
    ensures
        leading_successes(outcomes) <= failed,
        !succeeded(outcomes[leading_successes(outcomes) as int]),
        forall|i: int| 0 <= i < leading_successes(outcomes) ==> succeeded(#[trigger] outcomes[i]),
        probing(names, outcomes) == ProbeView::Missing(
            ToolchainErrorView::NotFound(names[leading_successes(outcomes) as int]),
        ),
{
    lemma_leading_successes_end(outcomes);
}

/// The flags do not reach the compiler: options that differ in their flags
/// only give the same compile command.
pub proof fn law_flags_do_not_reach_the_compiler(
    options: OptionsView,
    flags: Seq<char>,
    env: RishkaEnvView,
)
    ensures
        gpp_invocation(OptionsView { flags, ..options }, env) == gpp_invocation(options, env),
{
}

/// The command that asks the program `name` for its version.
pub fn version_probe(name: &str) -> (command: Invocation)
    ensures
        command@ == version_command(name@),
{
    let args = vec![String::from_str("--version")];
    let command = Invocation { program: String::from_str(name), args };
    assert(command.args.deep_view() =~= seq!["--version"@]);
    command
}

/// Whether a version probe found its program: the process was started and
/// reported success.
pub fn test_process(outcome: &Option<Ended>) -> (found: bool)
    ensures
        found == succeeded(outcome_view(*outcome)),
{
    match outcome {
        Some(exit) => exit.success,
        None => false,
    }
}

/// Checks the program `dep` against the outcome of its version probe.
pub fn check_dep(dep: &str, outcome: &Option<Ended>) -> (checked: Result<(), ToolchainError>)
    ensures
        succeeded(outcome_view(*outcome)) ==> checked is Ok,
        !succeeded(outcome_view(*outcome)) ==> checked is Err && checked->Err_0@
            == ToolchainErrorView::NotFound(dep@),
{
    if test_process(outcome) {
        Ok(())
    } else {
        Err(ToolchainError::NotFound(String::from_str(dep)))
    }
}

/// Says where the probing of the programs `names` stands, given the outcomes
/// of the probes made so far, in the order of the names.
pub fn probe(names: &Vec<String>, outcomes: &Vec<Option<Ended>>) -> (state: Probe)
    ensures
        state@ == probing(names.deep_view(), outcomes.deep_view()),
{
    let mut i: usize = 0;
    while i < names.len() && i < outcomes.len()
        invariant
            i <= names.len(),
            i <= outcomes.len(),
            forall|j: int| 0 <= j < i ==> succeeded(#[trigger] outcomes.deep_view()[j]),
        decreases names.len() - i,
    {
        match check_dep(names[i].as_str(), &outcomes[i]) {
            Ok(_) => {},
            Err(error) => {
                proof {
                    lemma_leading_successes(outcomes.deep_view(), i as int);
                }
                return Probe::Missing(error);
            },
        }
        assert(outcomes.deep_view()[i as int] == outcome_view(outcomes[i as int]));
        i += 1;
    }
    proof {
        lemma_leading_successes(outcomes.deep_view(), i as int);
    }
    if i < names.len() {
        Probe::Run(version_probe(names[i].as_str()))
    } else {
        Probe::Installed
    }
}

/// Says where the probing of the toolchain stands, given the outcomes of the
/// probes made so far: the compiler's first, then that of the extraction
/// tool. A program is probed only when all those before it were found.
pub fn check_req_deps(outcomes: &Vec<Option<Ended>>) -> (state: Probe)
    ensures
        state@ == probing(required_programs(), outcomes.deep_view()),
{
    let names = vec![
        String::from_str("riscv64-unknown-elf-g++"),
        String::from_str("riscv64-unknown-elf-objcopy"),
    ];
    assert(names.deep_view() =~= required_programs());
    probe(&names, outcomes)
}

/// The parts, with the separator between each two neighbours.
pub fn join(parts: &Vec<String>, separator: &str) -> (text: String)
    ensures
        text@ == joined(parts.deep_view(), separator@),
{
    let mut text = String::new();
    let mut i: usize = 0;
    assert(parts.deep_view().take(0) =~= Seq::empty());
    while i < parts.len()
        invariant
            i <= parts.len(),
            text@ == joined(parts.deep_view().take(i as int), separator@),
        decreases parts.len() - i,
    {
        if i > 0 {
            text.append(separator);
        }
        text.append(parts[i].as_str());
        proof {
            let next = parts.deep_view().take(i + 1);
            assert(next.drop_last() =~= parts.deep_view().take(i as int));
            assert(next.last() == parts[i as int]@);
            if i == 0 {
                assert(text@ =~= next[0]);
            }
        }
        i += 1;
    }
    assert(parts.deep_view().take(parts.len() as int) =~= parts.deep_view());
    text
}

/// The arguments that the caller's flags add to the compile command: none,
/// whatever the flags are. This is the one place where that is decided.
pub fn splice_flags(flags: &str) -> (args: Vec<String>)
    ensures
        args.deep_view() == spliced_flags(flags@),
{
    let args: Vec<String> = Vec::new();
    assert(args.deep_view() =~= spliced_flags(flags@));
    args
}

/// The command that compiles and links the caller's files with the library
/// into `<output>.out`.
pub fn gpp_command(options: &Options, cc_env: &RishkaEnv) -> (command: Invocation)
    ensures
        command@ == gpp_invocation(options@, cc_env@),
{
    let mut args = vec![
        String::from_str("-march=rv64im"),
        String::from_str("-mabi=lp64"),
        String::from_str("-nostdlib"),
        String::from_str("-O2"),
        String::from_str("-Wl,-T,").concat(cc_env.scripts.as_str()).concat("/link.ld"),
        String::from_str("-I").concat(cc_env.library.as_str()),
        String::from_str("-o").concat(gpp_output_path(options).as_str()),
    ];
    let mut flags = splice_flags(options.flags.as_str());
    args.append(&mut flags);
    args.push(cc_env.library.clone().concat("/*.cpp"));
    args.push(cc_env.scripts.clone().concat("/launcher.s"));
    args.push(join(&options.files, " "));
    let command = Invocation { program: String::from_str("riscv64-unknown-elf-g++"), args };
    assert(command.args.deep_view() =~= gpp_arguments(options@, cc_env@));
    command
}

/// Reads the outcome of the compile command: whether the compiler succeeded,
/// and its diagnostics.
///
/// The diagnostics of a failed compiler are what it wrote to its standard
/// error stream, unchanged. After a success, and when the compiler could not
/// be started, they are empty.
pub fn run_riscv64_gpp(outcome: &Option<Ended>) -> (result: (bool, String))
    ensures
        (result.0, result.1@) == compile_result(outcome_view(*outcome)),
{
    match outcome {
        Some(exit) => {
            let stat = exit.success;
            let mut stderr = String::new();
            if !stat {
                stderr = exit.stderr.clone();
            }
            (stat, stderr)
        },
        None => (false, String::new()),
    }
}

/// The command that extracts the raw binary image `<output>.bin` from
/// `<output>.out`.
pub fn objcopy_command(options: &Options) -> (command: Invocation)
    ensures
        command@ == objcopy_invocation(options@),
{
    let args = vec![
        String::from_str("-O"),
        String::from_str("binary"),
        gpp_output_path(options),
        binary_output_path(options),
    ];
    let command = Invocation { program: String::from_str("riscv64-unknown-elf-objcopy"), args };
    assert(command.args.deep_view() =~= objcopy_invocation(options@).args);
    command
}

/// Reads the outcome of the extraction: whether the tool was started and
/// reported success.
pub fn run_riscv64_objcopy(outcome: &Option<Ended>) -> (extracted: bool)
    ensures
        extracted == succeeded(outcome_view(*outcome)),
{
    match outcome {
        Some(exit) => exit.success,
        None => false,
    }
}

/// What is said before the program `dep` is probed.
pub open spec fn dep_prompt(dep: Seq<char>) -> Seq<SpanView> {
    seq![SpanView::of("Checking "@), SpanView::of(dep).cyan().italic(), SpanView::of("... "@)]
}

/// What is said of a program once it is probed.
pub open spec fn dep_report(found: bool) -> Seq<SpanView> {
    if found {
        seq![SpanView::of("installed"@).green().bold(), SpanView::of(".\n"@)]
    } else {
        seq![SpanView::of("not"@).red().bold(), SpanView::of(" installed.\n"@)]
    }
}

/// The text that is shown before the program `dep` is probed.
pub fn print_dep_prompt(dep: &str) -> (out: Vec<Span>)
    ensures
        out.deep_view() == dep_prompt(dep@),
{
    let out = vec![Span::of("Checking "), Span::of(dep).cyan().italic(), Span::of("... ")];
    assert(out.deep_view() =~= dep_prompt(dep@));
    out
}

/// The text that is shown once a program is probed.
pub fn print_dep_report(found: bool) -> (out: Vec<Span>)
    ensures
        out.deep_view() == dep_report(found),
{
    let out = if found {
        vec![Span::of("installed").green().bold(), Span::of(".\n")]
    } else {
        vec![Span::of("not").red().bold(), Span::of(" installed.\n")]
    };
    assert(out.deep_view() =~= dep_report(found));
    out
}

} // verus!
