//! What holds of every build.
//!
//! A [`DriverView`] is a record of answers, and where a build stands follows
//! from the record alone. The first laws below therefore speak of records:
//! what they state of a record holds at every point of every build, whatever
//! was answered before and whatever is answered later.
//!
//! The laws after them follow a build through time: [`run`] through a given
//! sequence of events, [`play`] through a world that answers each action the
//! build asks for.

use crate::cc::args::{with_default_output, OptionsView};
use crate::cc::banner::usage;
use crate::cc::driver::{
    advance, begin, pipeline, ActionView, BuildErrorView, BuildResultView, DriverView, EventView,
    PipelineErrorView, StageView,
};
use crate::cc::env::{
    library_variable, path_check, resolve, resolved, scripts_variable, EnvLookupView,
    RishkaEnvView,
};
use crate::cc::io::{binary_output, gpp_output};
use crate::cc::process::{
    gpp_invocation, gpp_program, leading_successes, lemma_leading_successes,
    lemma_leading_successes_end, objcopy_invocation, objcopy_program, probing, required_programs,
    succeeded, version_command, EndedView,
};
use crate::text::SpanView;
use vstd::prelude::*;

verus! {

/// The build that starts as `driver` after the given events, taken in order.
pub open spec fn run_from(driver: DriverView, events: Seq<EventView>) -> DriverView
    decreases events.len(),
{
    if events.len() == 0 {
        driver
    } else {
        advance(run_from(driver, events.drop_last()), events.last()).0
    }
}

/// The build of `options` after the given events, taken in order.
pub open spec fn run(options: OptionsView, events: Seq<EventView>) -> DriverView {
    run_from(begin(options).0, events)
}

/// Whether `later` holds all the answers of `earlier`, in the same order and
/// at the front, for the same options.
pub open spec fn keeps(later: DriverView, earlier: DriverView) -> bool {
    &&& later.options == earlier.options
    &&& earlier.lookups.is_prefix_of(later.lookups)
    &&& earlier.probes.is_prefix_of(later.probes)
    &&& earlier.runs.is_prefix_of(later.runs)
    &&& earlier.removals.is_prefix_of(later.removals)
}

/// The action of a step is the action of the stage that the build is in after
/// the step.
pub proof fn law_step_asks_what_the_stage_asks(driver: DriverView, event: EventView)
    ensures
        advance(driver, event).1.action == advance(driver, event).0.stage().action(),
{
}

/// An event adds at most one answer to a build, at the end of the answers of
/// its kind, and takes none away.
pub proof fn law_step_keeps_answers(driver: DriverView, event: EventView)
    ensures
        keeps(advance(driver, event).0, driver),
{
}

/// A build never loses an answer, and never changes its options.
pub proof fn law_run_keeps_answers(driver: DriverView, events: Seq<EventView>)
    ensures
        keeps(run_from(driver, events), driver),
    decreases events.len(),
{
    if events.len() > 0 {
        let before = run_from(driver, events.drop_last());
        law_run_keeps_answers(driver, events.drop_last());
        law_step_keeps_answers(before, events.last());
    }
}

/// A build that has ended stays as it is: every event is passed over in
/// silence, and the build asks to leave.
pub proof fn law_ended_build_is_final(driver: DriverView, event: EventView)
    requires
        driver.stage().ended(),
    ensures
        advance(driver, event).0 == driver,
        advance(driver, event).1.say == Seq::<SpanView>::empty(),
        advance(driver, event).1.action is Exit,
{
}

/// A build that has ended stays as it is, whatever the events that follow.
pub proof fn law_ended_run_is_final(driver: DriverView, events: Seq<EventView>)
    requires
        driver.stage().ended(),
    ensures
        run_from(driver, events) == driver,
    decreases events.len(),
{
    if events.len() > 0 {
        law_ended_run_is_final(driver, events.drop_last());
        law_ended_build_is_final(driver, events.last());
    }
}

/// The place of a stage in the course of a build: the stages in the order in
/// which a build passes through them, a failure last.
pub open spec fn rank(stage: StageView) -> int {
    match stage {
        StageView::Resolving(_) => 0,
        StageView::Probing(_) => 1,
        StageView::Compiling(_) => 2,
        StageView::Extracting(_) => 3,
        StageView::CleaningUp(_) => 4,
        StageView::Done => 5,
        StageView::Failed(_) => 6,
    }
}

/// Without an input file the pipeline is answered with the usage failure,
/// whatever the directories and whatever it was told: it asks for no process
/// and for no removal, only to leave.
pub proof fn law_pipeline_without_input_is_usage(
    options: OptionsView,
    env: RishkaEnvView,
    runs: Seq<Option<EndedView>>,
    removals: Seq<bool>,
)
    requires
        options.files.len() == 0,
    ensures
        pipeline(options, env, runs, removals) == StageView::Failed(BuildErrorView::Usage),
        pipeline(options, env, runs, removals).action() is Exit,
        pipeline(options, env, runs, removals).result() == Some(
            BuildResultView { succeeded: false, diagnostics: Seq::empty() },
        ),
{
}

/// A build is in a stage only when everything before that stage succeeded:
/// the toolchain is probed only in a resolved environment, the pipeline runs
/// only with every program found, the extraction only after a successful
/// compile, the cleanup only after a successful extraction, and the build is
/// done only after a successful cleanup.
pub proof fn law_stage_follows_successes(driver: DriverView)
    ensures
        1 <= rank(driver.stage()) <= 5 ==> driver.options.files.len() > 0 && resolve(
            driver.lookups,
        ) is Resolved,
        2 <= rank(driver.stage()) <= 5 ==> probing(required_programs(), driver.probes) is Installed,
        driver.stage() is Compiling ==> driver.runs.len() == 0,
        3 <= rank(driver.stage()) <= 5 ==> driver.runs.len() >= 1 && succeeded(driver.runs[0]),
        driver.stage() is Extracting ==> driver.runs.len() == 1,
        4 <= rank(driver.stage()) <= 5 ==> driver.runs.len() >= 2 && succeeded(driver.runs[1]),
        driver.stage() is CleaningUp ==> driver.removals.len() == 0,
        driver.stage() is Done ==> driver.removals.len() >= 1 && driver.removals[0],
{
}

/// A build passes through its stages in order: an event leaves the build in
/// its stage or moves it to a later one, never to an earlier one.
pub proof fn law_stages_run_in_order(driver: DriverView, event: EventView)
    ensures
        rank(driver.stage()) <= rank(advance(driver, event).0.stage()),
{
    match (driver.stage(), event) {
        (StageView::Probing(_), EventView::Spawned(outcome)) => {
            let after = advance(driver, event).0;
            let k = leading_successes(driver.probes) as int;
            lemma_leading_successes_end(driver.probes);
            assert forall|i: int| 0 <= i < k implies succeeded(#[trigger] after.probes[i]) by {
                assert(after.probes[i] == driver.probes[i]);
            }
            lemma_leading_successes(after.probes, k);
        },
        _ => {},
    }
}

/// Where the environment lacks one of the two directories, its resolution
/// fails, and no build in that environment ever asks for a process to be
/// started.
///
/// `library` and `scripts` are what the environment holds for the two
/// variables; a build in that environment has been told of none, of the
/// first, or of both.
pub proof fn law_unresolved_environment_spawns_nothing(
    driver: DriverView,
    library: EnvLookupView,
    scripts: EnvLookupView,
)
    requires
        path_check(library_variable(), library) is Err || path_check(
            scripts_variable(),
            scripts,
        ) is Err,
        driver.lookups.is_prefix_of(seq![library, scripts]),
    ensures
        resolve(seq![library, scripts]) is Failed,
        !(driver.stage().action() is Spawn),
{
}

/// Where a program of the toolchain fails its version probe, no build ever
/// reaches the compile stage, nor any stage after it.
///
/// `outcomes` are the outcomes that the probes of the required programs
/// have, in order; a build has been told of none of them, or of those at the
/// front.
pub proof fn law_missing_program_compiles_nothing(
    driver: DriverView,
    outcomes: Seq<Option<EndedView>>,
    failed: int,
)
    requires
        outcomes.len() == required_programs().len(),
        0 <= failed < outcomes.len(),
        !succeeded(outcomes[failed]),
        driver.probes.is_prefix_of(outcomes),
    ensures
        probing(required_programs(), outcomes) is Missing,
        !(driver.stage() is Compiling),
        !(driver.stage() is Extracting),
        !(driver.stage() is CleaningUp),
        !(driver.stage() is Done),
{
    lemma_leading_successes_end(outcomes);
    lemma_leading_successes_end(driver.probes);
    if leading_successes(driver.probes) >= 2 {
        assert(driver.probes =~= outcomes);
    }
}

/// Options without an input file are answered with the usage text, and the
/// build asks for nothing but to leave: at its start and after any events.
pub proof fn law_no_input_is_usage(options: OptionsView, events: Seq<EventView>)
    requires
        options.files.len() == 0,
    ensures
        begin(options).1.say == usage(),
        begin(options).1.action is Exit,
        run(options, events).stage() == StageView::Failed(BuildErrorView::Usage),
        run(options, events).stage().action() is Exit,
{
    law_run_keeps_answers(begin(options).0, events);
}

/// The file that a build asks to remove is the compiler's output
/// `<output>.out`, never the raw binary image `<output>.bin`; and a build is
/// done only when compile and extraction succeeded and that removal did too.
pub proof fn law_done_build_removed_compiler_output(driver: DriverView)
    ensures
        driver.stage().action() is Remove ==> driver.stage().action() == ActionView::Remove(
            gpp_output(driver.options),
        ),
        driver.stage().action() != ActionView::Remove(binary_output(driver.options)),
        driver.stage() is Done ==> {
            &&& driver.runs.len() >= 2
            &&& succeeded(driver.runs[0])
            &&& succeeded(driver.runs[1])
            &&& driver.removals.len() >= 1
            &&& driver.removals[0]
        },
{
    reveal_strlit(".out");
    reveal_strlit(".bin");
    let second = driver.options.output.len() as int + 1;
    assert(gpp_output(driver.options)[second] == 'o');
    assert(binary_output(driver.options)[second] == 'b');
}

/// After a successful compile and a failed extraction the pipeline of
/// options with an input file has failed in the extraction, and no build that
/// was told of these outcomes, or of the first of them only, asks for the
/// removal of the compiler's output or is done.
pub proof fn law_failed_extraction_removes_nothing(
    driver: DriverView,
    env: RishkaEnvView,
    compiled: Option<EndedView>,
    extracted: Option<EndedView>,
)
    requires
        succeeded(compiled),
        !succeeded(extracted),
        driver.runs.is_prefix_of(seq![compiled, extracted]),
    ensures
        driver.options.files.len() > 0 ==> pipeline(
            driver.options,
            env,
            seq![compiled, extracted],
            driver.removals,
        ) == StageView::Failed(BuildErrorView::Pipeline(PipelineErrorView::ExtractFailed)),
        !(driver.stage().action() is Remove),
        !(driver.stage() is Done),
{
}

/// After a failed compile the pipeline of options with an input file has
/// failed in the compile stage, and its diagnostics are what the compiler
/// wrote to its standard error stream, unchanged. No build that was told of
/// this outcome asks for the extraction or for a removal, or is done.
pub proof fn law_failed_compile_ends_pipeline(
    driver: DriverView,
    env: RishkaEnvView,
    exit: EndedView,
)
    requires
        !exit.success,
        driver.runs.len() >= 1,
        driver.runs[0] == Some(exit),
    ensures
        driver.options.files.len() > 0 ==> pipeline(
            driver.options,
            env,
            driver.runs,
            driver.removals,
        ) == StageView::Failed(
            BuildErrorView::Pipeline(PipelineErrorView::CompileFailed(exit.stderr)),
        ),
        driver.options.files.len() > 0 ==> pipeline(
            driver.options,
            env,
            driver.runs,
            driver.removals,
        ).result() == Some(BuildResultView { succeeded: false, diagnostics: exit.stderr }),
        !(driver.stage() is Extracting),
        !(driver.stage() is CleaningUp),
        !(driver.stage() is Done),
{
}

/// A build is determined by its options and by what it was told: the same
/// options and the same answers give the same build, hence the same stage,
/// the same action and the same result.
pub proof fn law_same_answers_same_build(
    options: OptionsView,
    events: Seq<EventView>,
    again: Seq<EventView>,
)
    requires
        events == again,
    ensures
        run(options, events) == run(options, again),
        run(options, events).stage() == run(options, again).stage(),
        run(options, events).stage().result() == run(options, again).stage().result(),
{
}

/// The build of `options` after the given number of steps in a world that
/// answers every action with an event: at each step the build is told what
/// the world answers to the action it asks for.
pub open spec fn play(
    options: OptionsView,
    world: spec_fn(ActionView) -> EventView,
    steps: nat,
) -> DriverView
    decreases steps,
{
    if steps == 0 {
        begin(options).0
    } else {
        let before = play(options, world, (steps - 1) as nat);
        advance(before, world(before.stage().action())).0
    }
}

/// A build keeps its options, with the default output name in place, through
/// every step.
pub proof fn lemma_play_keeps_options(
    options: OptionsView,
    world: spec_fn(ActionView) -> EventView,
    steps: nat,
)
    ensures
        play(options, world, steps).options == with_default_output(options),
    decreases steps,
{
    if steps > 0 {
        lemma_play_keeps_options(options, world, (steps - 1) as nat);
    }
}

/// In a world that holds `library` and `scripts` for the two variables, a
/// build has been told of none of them, of the first, or of both.
proof fn lemma_play_lookups(
    options: OptionsView,
    world: spec_fn(ActionView) -> EventView,
    library: EnvLookupView,
    scripts: EnvLookupView,
    steps: nat,
)
    requires
        world(ActionView::Lookup(library_variable())) == EventView::Looked(library),
        world(ActionView::Lookup(scripts_variable())) == EventView::Looked(scripts),
    ensures
        play(options, world, steps).lookups.is_prefix_of(seq![library, scripts]),
    decreases steps,
{
    if steps > 0 {
        let before = play(options, world, (steps - 1) as nat);
        lemma_play_lookups(options, world, library, scripts, (steps - 1) as nat);
        if before.stage() is Resolving && before.lookups.len() == 1 {
            assert(before.lookups[0] == seq![library, scripts][0]);
            assert(before.lookups.push(scripts) =~= seq![library, scripts]);
        }
    }
}

/// In a world where the probes of the two programs end as `compiler` and
/// `objcopy`, a build has been told of none of these outcomes, of the first,
/// or of both.
proof fn lemma_play_probes(
    options: OptionsView,
    world: spec_fn(ActionView) -> EventView,
    compiler: Option<EndedView>,
    objcopy: Option<EndedView>,
    steps: nat,
)
    requires
        world(ActionView::Spawn(version_command(gpp_program()))) == EventView::Spawned(compiler),
        world(ActionView::Spawn(version_command(objcopy_program()))) == EventView::Spawned(
            objcopy,
        ),
    ensures
        play(options, world, steps).probes.is_prefix_of(seq![compiler, objcopy]),
    decreases steps,
{
    if steps > 0 {
        let before = play(options, world, (steps - 1) as nat);
        lemma_play_probes(options, world, compiler, objcopy, (steps - 1) as nat);
        if before.stage() is Probing {
            lemma_leading_successes_end(before.probes);
            if before.probes.len() == 1 {
                assert(before.probes[0] == seq![compiler, objcopy][0]);
                assert(before.probes.push(objcopy) =~= seq![compiler, objcopy]);
            }
        }
    }
}

/// In a world where the compiler ends as `compiled`, whatever the directories
/// it is pointed to, and the extraction as `extracted`, a build has been told
/// of none of these outcomes, of the first, or of both.
proof fn lemma_play_runs(
    options: OptionsView,
    world: spec_fn(ActionView) -> EventView,
    compiled: Option<EndedView>,
    extracted: Option<EndedView>,
    steps: nat,
)
    requires
        forall|env: RishkaEnvView|
            world(
                ActionView::Spawn(#[trigger] gpp_invocation(with_default_output(options), env)),
            ) == EventView::Spawned(compiled),
        world(ActionView::Spawn(objcopy_invocation(with_default_output(options))))
            == EventView::Spawned(extracted),
    ensures
        play(options, world, steps).runs.is_prefix_of(seq![compiled, extracted]),
    decreases steps,
{
    if steps > 0 {
        let before = play(options, world, (steps - 1) as nat);
        lemma_play_runs(options, world, compiled, extracted, (steps - 1) as nat);
        lemma_play_keeps_options(options, world, (steps - 1) as nat);
        if before.stage() is Extracting {
            assert(before.runs[0] == seq![compiled, extracted][0]);
            assert(before.runs.push(extracted) =~= seq![compiled, extracted]);
        }
    }
}

/// A build that has run a command of the pipeline has input files, a
/// resolved environment and a toolchain that was found.
proof fn lemma_play_pipeline(
    options: OptionsView,
    world: spec_fn(ActionView) -> EventView,
    steps: nat,
)
    ensures
        play(options, world, steps).runs.len() > 0 ==> {
            &&& play(options, world, steps).options.files.len() > 0
            &&& resolve(play(options, world, steps).lookups) is Resolved
            &&& probing(required_programs(), play(options, world, steps).probes) is Installed
        },
    decreases steps,
{
    if steps > 0 {
        let before = play(options, world, (steps - 1) as nat);
        lemma_play_pipeline(options, world, (steps - 1) as nat);
        law_stage_follows_successes(before);
    }
}

/// In an environment that lacks one of the two directories, a build never
/// asks for a process to be started, however long it runs.
///
/// `library` and `scripts` are what the world answers when the two variables
/// are looked up.
pub proof fn law_unresolved_environment_never_spawns(
    options: OptionsView,
    world: spec_fn(ActionView) -> EventView,
    library: EnvLookupView,
    scripts: EnvLookupView,
    steps: nat,
)
    requires
        world(ActionView::Lookup(library_variable())) == EventView::Looked(library),
        world(ActionView::Lookup(scripts_variable())) == EventView::Looked(scripts),
        path_check(library_variable(), library) is Err || path_check(
            scripts_variable(),
            scripts,
        ) is Err,
    ensures
        resolve(seq![library, scripts]) is Failed,
        !(play(options, world, steps).stage().action() is Spawn),
{
    lemma_play_lookups(options, world, library, scripts, steps);
    law_unresolved_environment_spawns_nothing(play(options, world, steps), library, scripts);
}

/// With a program of the toolchain that fails its version probe, a build
/// never reaches the compile stage nor any stage after it, however long it
/// runs.
///
/// `compiler` and `objcopy` are what the world answers when the two programs
/// are probed.
pub proof fn law_missing_program_never_compiles(
    options: OptionsView,
    world: spec_fn(ActionView) -> EventView,
    compiler: Option<EndedView>,
    objcopy: Option<EndedView>,
    steps: nat,
)
    requires
        world(ActionView::Spawn(version_command(gpp_program()))) == EventView::Spawned(compiler),
        world(ActionView::Spawn(version_command(objcopy_program()))) == EventView::Spawned(
            objcopy,
        ),
        !succeeded(compiler) || !succeeded(objcopy),
    ensures
        rank(play(options, world, steps).stage()) < 2 || play(options, world, steps).stage()
            is Failed,
{
    let outcomes = seq![compiler, objcopy];
    lemma_play_probes(options, world, compiler, objcopy, steps);
    if !succeeded(compiler) {
        assert(!succeeded(outcomes[0]));
        law_missing_program_compiles_nothing(play(options, world, steps), outcomes, 0);
    } else {
        assert(!succeeded(outcomes[1]));
        law_missing_program_compiles_nothing(play(options, world, steps), outcomes, 1);
    }
}

/// Without an input file a build asks for nothing but to leave, however long
/// it runs.
pub proof fn law_no_input_never_acts(
    options: OptionsView,
    world: spec_fn(ActionView) -> EventView,
    steps: nat,
)
    requires
        options.files.len() == 0,
    ensures
        play(options, world, steps).stage() == StageView::Failed(BuildErrorView::Usage),
        play(options, world, steps).stage().action() is Exit,
{
    lemma_play_keeps_options(options, world, steps);
}

/// In a world where everything succeeds a build is done after seven steps:
/// two lookups, two probes, the compile, the extraction, and last the removal
/// of the compiler's output `<output>.out`, which the build asks for with the
/// extraction behind it.
///
/// `library` and `scripts` are what the world answers when the two variables
/// are looked up, `compiler` and `objcopy` what it answers when the two
/// programs are probed, `compiled` and `extracted` what it answers to the
/// compile command and to the extraction.
pub proof fn law_successful_build_is_done(
    options: OptionsView,
    world: spec_fn(ActionView) -> EventView,
    library: EnvLookupView,
    scripts: EnvLookupView,
    compiler: Option<EndedView>,
    objcopy: Option<EndedView>,
    compiled: Option<EndedView>,
    extracted: Option<EndedView>,
)
    requires
        options.files.len() > 0,
        world(ActionView::Lookup(library_variable())) == EventView::Looked(library),
        world(ActionView::Lookup(scripts_variable())) == EventView::Looked(scripts),
        path_check(library_variable(), library) is Ok,
        path_check(scripts_variable(), scripts) is Ok,
        world(ActionView::Spawn(version_command(gpp_program()))) == EventView::Spawned(compiler),
        world(ActionView::Spawn(version_command(objcopy_program()))) == EventView::Spawned(
            objcopy,
        ),
        succeeded(compiler),
        succeeded(objcopy),
        world(
            ActionView::Spawn(
                gpp_invocation(with_default_output(options), resolved(library, scripts)),
            ),
        ) == EventView::Spawned(compiled),
        world(ActionView::Spawn(objcopy_invocation(with_default_output(options))))
            == EventView::Spawned(extracted),
        succeeded(compiled),
        succeeded(extracted),
        world(ActionView::Remove(gpp_output(with_default_output(options)))) == EventView::Removed(
            true,
        ),
    ensures
        play(options, world, 4).stage() == StageView::Compiling(
            gpp_invocation(with_default_output(options), resolved(library, scripts)),
        ),
        play(options, world, 5).stage() == StageView::Extracting(
            objcopy_invocation(with_default_output(options)),
        ),
        play(options, world, 6).stage() == StageView::CleaningUp(
            gpp_output(with_default_output(options)),
        ),
        play(options, world, 7).stage() == StageView::Done,
        play(options, world, 7).stage().result() == Some(
            BuildResultView { succeeded: true, diagnostics: Seq::empty() },
        ),
{
    let chosen = with_default_output(options);
    let env = resolved(library, scripts);
    assert(play(options, world, 0).stage() == StageView::Resolving(library_variable()));
    assert(play(options, world, 1).lookups =~= seq![library]);
    assert(play(options, world, 1).stage() == StageView::Resolving(scripts_variable()));
    assert(play(options, world, 2).lookups =~= seq![library, scripts]);
    assert(play(options, world, 2).stage() == StageView::Probing(version_command(gpp_program())));
    assert(play(options, world, 3).probes =~= seq![compiler]);
    lemma_leading_successes(play(options, world, 3).probes, 1);
    assert(play(options, world, 3).stage() == StageView::Probing(
        version_command(objcopy_program()),
    ));
    assert(play(options, world, 4).probes =~= seq![compiler, objcopy]);
    lemma_leading_successes(play(options, world, 4).probes, 2);
    assert(play(options, world, 4).stage() == StageView::Compiling(gpp_invocation(chosen, env)));
    assert(play(options, world, 5).runs =~= seq![compiled]);
    assert(play(options, world, 5).stage() == StageView::Extracting(objcopy_invocation(chosen)));
    assert(play(options, world, 6).runs =~= seq![compiled, extracted]);
    assert(play(options, world, 6).stage() == StageView::CleaningUp(gpp_output(chosen)));
    assert(play(options, world, 7).removals =~= seq![true]);
}

/// With a compiler that succeeds and an extraction that fails, a build never
/// asks for the removal of the compiler's output and is never done, however
/// long it runs: the cleanup is not reached.
///
/// `compiled` is what the world answers to the compile command, whatever the
/// directories in it, and `extracted` what it answers to the extraction.
pub proof fn law_failed_extraction_never_removes(
    options: OptionsView,
    world: spec_fn(ActionView) -> EventView,
    compiled: Option<EndedView>,
    extracted: Option<EndedView>,
    steps: nat,
)
    requires
        forall|env: RishkaEnvView|
            world(
                ActionView::Spawn(#[trigger] gpp_invocation(with_default_output(options), env)),
            ) == EventView::Spawned(compiled),
        world(ActionView::Spawn(objcopy_invocation(with_default_output(options))))
            == EventView::Spawned(extracted),
        succeeded(compiled),
        !succeeded(extracted),
    ensures
        !(play(options, world, steps).stage().action() is Remove),
        !(play(options, world, steps).stage() is Done),
        play(options, world, steps).runs.len() >= 2 ==> play(options, world, steps).stage()
            == StageView::Failed(BuildErrorView::Pipeline(PipelineErrorView::ExtractFailed)),
{
    let build = play(options, world, steps);
    lemma_play_runs(options, world, compiled, extracted, steps);
    lemma_play_pipeline(options, world, steps);
    law_failed_extraction_removes_nothing(
        build,
        RishkaEnvView { library: Seq::empty(), scripts: Seq::empty() },
        compiled,
        extracted,
    );
    if build.runs.len() >= 2 {
        assert(build.runs[0] == seq![compiled, extracted][0]);
        assert(build.runs[1] == seq![compiled, extracted][1]);
    }
}

/// With a compiler that fails, a build never asks for the extraction or for
/// a removal and is never done, however long it runs; and once the compiler
/// has run, the build has failed with what the compiler wrote to its standard
/// error stream as its diagnostics, unchanged.
///
/// `exit` is how the compiler ends in the world, whatever the directories it
/// is pointed to.
pub proof fn law_failed_compile_never_extracts(
    options: OptionsView,
    world: spec_fn(ActionView) -> EventView,
    exit: EndedView,
    steps: nat,
)
    requires
        forall|env: RishkaEnvView|
            world(
                ActionView::Spawn(#[trigger] gpp_invocation(with_default_output(options), env)),
            ) == EventView::Spawned(Some(exit)),
        !exit.success,
    ensures
        rank(play(options, world, steps).stage()) < 3 || play(options, world, steps).stage()
            is Failed,
        play(options, world, steps).runs.len() >= 1 ==> play(options, world, steps).stage()
            == StageView::Failed(
            BuildErrorView::Pipeline(PipelineErrorView::CompileFailed(exit.stderr)),
        ) && play(options, world, steps).stage().result() == Some(
            BuildResultView { succeeded: false, diagnostics: exit.stderr },
        ),
    decreases steps,
{
    if steps > 0 {
        let before = play(options, world, (steps - 1) as nat);
        law_failed_compile_never_extracts(options, world, exit, (steps - 1) as nat);
        lemma_play_keeps_options(options, world, (steps - 1) as nat);
        law_stage_follows_successes(before);
        if before.stage() is Compiling {
            let after = play(options, world, steps);
            assert(after.runs =~= seq![Some(exit)]);
        }
    }
}

/// A build is determined by its options and its world: two worlds that give
/// the same answers lead a build of the same options through the same
/// stages, to the same result.
pub proof fn law_same_world_same_build(
    options: OptionsView,
    world: spec_fn(ActionView) -> EventView,
    again: spec_fn(ActionView) -> EventView,
    steps: nat,
)
    requires
        forall|action: ActionView| #[trigger] world(action) == again(action),
    ensures
        play(options, world, steps) == play(options, again, steps),
        play(options, world, steps).stage().result() == play(options, again, steps).stage().result(),
    decreases steps,
{
    if steps > 0 {
        law_same_world_same_build(options, world, again, (steps - 1) as nat);
    }
}

} // verus!
