use rishka_tools::cc::args::Options;
use rishka_tools::cc::banner::print_usage;
use rishka_tools::cc::driver::{
    compile_task, print_announcement, print_cleanup_report, print_compile_report,
    print_extract_report, Action, BuildError, BuildResult, Driver, Event, PipelineError, Stage,
    Step,
};
use rishka_tools::cc::env::{EnvLookup, EnvironmentError, RishkaEnv};
use rishka_tools::cc::process::{gpp_command, objcopy_command, version_probe, Ended, ToolchainError};
use rishka_tools::text::Span;

/// What the outside world answers in a test: the two variables, the two
/// probes, the compiler, the extraction and the removal.
struct World {
    library: EnvLookup,
    scripts: EnvLookup,
    gpp_probe: Option<Ended>,
    objcopy_probe: Option<Ended>,
    compile: Option<Ended>,
    extract: Option<Ended>,
    remove: bool,
}

fn dir(path: &str) -> EnvLookup {
    EnvLookup { value: Some(path.to_string()), metadata: Some(true) }
}

fn ok() -> Option<Ended> {
    Some(Ended { success: true, stderr: String::new() })
}

fn failed(stderr: &str) -> Option<Ended> {
    Some(Ended { success: false, stderr: stderr.to_string() })
}

fn good_world() -> World {
    World {
        library: dir("/sdk/lib"),
        scripts: dir("/sdk/scripts"),
        gpp_probe: ok(),
        objcopy_probe: ok(),
        compile: ok(),
        extract: ok(),
        remove: true,
    }
}

fn options(output: &str, files: &[&str]) -> Options {
    Options {
        flags: String::new(),
        output: output.to_string(),
        files: files.iter().map(|file| file.to_string()).collect(),
    }
}

fn sdk() -> RishkaEnv {
    RishkaEnv { library: "/sdk/lib".to_string(), scripts: "/sdk/scripts".to_string() }
}

fn answer(world: &World, action: &Action) -> Event {
    match action {
        Action::Lookup(name) if name == "RISHKA_LIBPATH" => Event::Looked(world.library.clone()),
        Action::Lookup(_) => Event::Looked(world.scripts.clone()),
        Action::Spawn(command) if command.args == ["--version"] => {
            if command.program == "riscv64-unknown-elf-g++" {
                Event::Spawned(world.gpp_probe.clone())
            } else {
                Event::Spawned(world.objcopy_probe.clone())
            }
        }
        Action::Spawn(command) if command.program == "riscv64-unknown-elf-g++" => {
            Event::Spawned(world.compile.clone())
        }
        Action::Spawn(_) => Event::Spawned(world.extract.clone()),
        Action::Remove(_) => Event::Removed(world.remove),
        Action::Exit(_) => unreachable!(),
    }
}

/// Runs a build to its end: the actions it asked for, all it said, and the
/// driver as it is then.
fn build(options: Options, world: &World) -> (Vec<Action>, Vec<Span>, Driver) {
    let (mut driver, mut step) = Driver::new(options);
    let mut actions = Vec::new();
    let mut said = Vec::new();
    loop {
        said.extend(step.say.clone());
        actions.push(step.action.clone());
        if let Action::Exit(_) = step.action {
            return (actions, said, driver);
        }
        assert!(actions.len() < 20);
        step = driver.step(answer(world, &step.action));
    }
}

fn text_of(spans: &[Span]) -> String {
    spans.iter().map(|span| span.text.as_str()).collect()
}

fn spawns(actions: &[Action]) -> usize {
    actions.iter().filter(|action| matches!(action, Action::Spawn(_))).count()
}

fn removals(actions: &[Action]) -> usize {
    actions.iter().filter(|action| matches!(action, Action::Remove(_))).count()
}

#[test]
fn successful_build_asks_for_everything_in_order() {
    let options = options("blink", &["blink.cpp"]);
    let (actions, _, driver) = build(options.clone(), &good_world());
    assert_eq!(
        actions,
        vec![
            Action::Lookup("RISHKA_LIBPATH".to_string()),
            Action::Lookup("RISHKA_SCRIPTS".to_string()),
            Action::Spawn(version_probe("riscv64-unknown-elf-g++")),
            Action::Spawn(version_probe("riscv64-unknown-elf-objcopy")),
            Action::Spawn(gpp_command(&options, &sdk())),
            Action::Spawn(objcopy_command(&options)),
            Action::Remove("blink.out".to_string()),
            Action::Exit(0),
        ]
    );
    assert_eq!(driver.stage(), Stage::Done);
    assert_eq!(
        driver.stage().result(),
        Some(BuildResult { succeeded: true, diagnostics: String::new() })
    );
}

#[test]
fn successful_build_says_what_it_does() {
    let (_, said, _) = build(options("blink", &["blink.cpp"]), &good_world());
    assert_eq!(
        text_of(&said),
        "Checking 'RISHKA_LIBPATH'... variable found.\n\
         Checking 'RISHKA_SCRIPTS'... variable found.\n\
         Checking riscv64-unknown-elf-g++... installed.\n\
         Checking riscv64-unknown-elf-objcopy... installed.\n\
         Building ELF binary from sources... done!\n\
         Generating raw binary output from ELF file... done!\n\
         Deleting ELF binary output file... deleted!\n\
         Task done!\n"
    );
}

#[test]
fn successful_build_removes_the_compiler_output_and_keeps_the_image() {
    let (actions, _, driver) = build(options("fw", &["a.cpp", "b.cpp"]), &good_world());
    assert_eq!(removals(&actions), 1);
    assert_eq!(actions[6], Action::Remove("fw.out".to_string()));
    assert!(!actions.contains(&Action::Remove("fw.bin".to_string())));
    assert_eq!(driver.removals, vec![true]);
    assert_eq!(driver.runs, vec![ok(), ok()]);
}

#[test]
fn first_step_asks_for_the_library_variable() {
    let (driver, step) = Driver::new(options("a", &["main.cpp"]));
    assert_eq!(
        step,
        Step {
            say: vec![
                Span::of("Checking '"),
                Span::of("RISHKA_LIBPATH").cyan().italic(),
                Span::of("'... "),
            ],
            action: Action::Lookup("RISHKA_LIBPATH".to_string()),
        }
    );
    assert_eq!(driver.stage(), Stage::Resolving("RISHKA_LIBPATH".to_string()));
    assert!(driver.lookups.is_empty() && driver.probes.is_empty());
    assert!(driver.runs.is_empty() && driver.removals.is_empty());
    assert_eq!(driver.stage().result(), None);
}

#[test]
fn empty_output_name_becomes_the_default() {
    let (driver, _) = Driver::new(options("", &["main.cpp"]));
    assert_eq!(driver.options.output, "a");
    let (actions, _, _) = build(options("", &["main.cpp"]), &good_world());
    assert_eq!(actions[6], Action::Remove("a.out".to_string()));
    match &actions[5] {
        Action::Spawn(command) => assert_eq!(command.args, ["-O", "binary", "a.out", "a.bin"]),
        other => panic!("{:?}", other),
    }
    let (driver, _) = Driver::new(options("named", &["main.cpp"]));
    assert_eq!(driver.options.output, "named");
}

#[test]
fn no_input_files_is_usage_without_any_action() {
    let (driver, step) = Driver::new(options("a", &[]));
    assert_eq!(step, Step { say: print_usage(), action: Action::Exit(0) });
    assert_eq!(driver.stage(), Stage::Failed(BuildError::Usage));
    assert_eq!(
        driver.stage().result(),
        Some(BuildResult { succeeded: false, diagnostics: String::new() })
    );
    let (actions, said, _) = build(options("a", &[]), &good_world());
    assert_eq!(actions, vec![Action::Exit(0)]);
    assert_eq!(said, print_usage());
}

#[test]
fn no_input_files_stays_usage_whatever_is_told() {
    let (mut driver, _) = Driver::new(options("a", &[]));
    let start = driver.clone();
    for event in [
        Event::Looked(dir("/sdk/lib")),
        Event::Spawned(ok()),
        Event::Spawned(None),
        Event::Removed(true),
    ] {
        assert_eq!(driver.step(event), Step { say: vec![], action: Action::Exit(0) });
        assert_eq!(driver, start);
    }
}

#[test]
fn missing_library_variable_ends_the_build_before_any_process() {
    let world = World { library: EnvLookup { value: None, metadata: None }, ..good_world() };
    let (actions, said, driver) = build(options("a", &["m.cpp"]), &world);
    assert_eq!(actions, vec![Action::Lookup("RISHKA_LIBPATH".to_string()), Action::Exit(0)]);
    assert_eq!(spawns(&actions), 0);
    assert_eq!(
        driver.stage(),
        Stage::Failed(BuildError::Environment(EnvironmentError::Missing(
            "RISHKA_LIBPATH".to_string()
        )))
    );
    assert_eq!(text_of(&said), "Checking 'RISHKA_LIBPATH'... variable not found.\n");
    assert_eq!(
        driver.stage().result(),
        Some(BuildResult { succeeded: false, diagnostics: String::new() })
    );
}

#[test]
fn scripts_path_that_is_no_directory_ends_the_build_before_any_process() {
    let world = World {
        scripts: EnvLookup { value: Some("/sdk/link.ld".to_string()), metadata: Some(false) },
        ..good_world()
    };
    let (actions, said, driver) = build(options("a", &["m.cpp"]), &world);
    assert_eq!(
        actions,
        vec![
            Action::Lookup("RISHKA_LIBPATH".to_string()),
            Action::Lookup("RISHKA_SCRIPTS".to_string()),
            Action::Exit(0),
        ]
    );
    assert_eq!(spawns(&actions), 0);
    assert_eq!(
        driver.stage(),
        Stage::Failed(BuildError::Environment(EnvironmentError::NotADirectory(
            "RISHKA_SCRIPTS".to_string(),
            "/sdk/link.ld".to_string()
        )))
    );
    assert_eq!(
        text_of(&said),
        "Checking 'RISHKA_LIBPATH'... variable found.\n\
         Checking 'RISHKA_SCRIPTS'... variable found.\n\
         Variable 'RISHKA_SCRIPTS' path does not exists.\n"
    );
}

#[test]
fn every_bad_environment_spawns_nothing() {
    let good = dir("/d");
    let bad = [
        EnvLookup { value: None, metadata: None },
        EnvLookup { value: Some(String::new()), metadata: Some(true) },
        EnvLookup { value: Some("/f".to_string()), metadata: Some(false) },
        EnvLookup { value: Some("/n".to_string()), metadata: None },
    ];
    for lookup in &bad {
        for (library, scripts) in [(lookup, &good), (&good, lookup), (lookup, lookup)] {
            let world =
                World { library: library.clone(), scripts: scripts.clone(), ..good_world() };
            let (actions, _, driver) = build(options("a", &["m.cpp"]), &world);
            assert_eq!(spawns(&actions), 0);
            assert_eq!(removals(&actions), 0);
            assert!(matches!(driver.stage(), Stage::Failed(BuildError::Environment(_))));
        }
    }
}

#[test]
fn missing_compiler_ends_the_build_before_the_second_probe() {
    let world = World { gpp_probe: None, ..good_world() };
    let (actions, said, driver) = build(options("a", &["m.cpp"]), &world);
    assert_eq!(
        actions[2..],
        [Action::Spawn(version_probe("riscv64-unknown-elf-g++")), Action::Exit(0)]
    );
    assert_eq!(
        driver.stage(),
        Stage::Failed(BuildError::Toolchain(ToolchainError::NotFound(
            "riscv64-unknown-elf-g++".to_string()
        )))
    );
    assert!(text_of(&said).ends_with("Checking riscv64-unknown-elf-g++... not installed.\n"));
}

#[test]
fn missing_objcopy_ends_the_build_before_the_compile() {
    let world = World { objcopy_probe: failed("not found"), ..good_world() };
    let (actions, said, driver) = build(options("a", &["m.cpp"]), &world);
    assert_eq!(
        actions[2..],
        [
            Action::Spawn(version_probe("riscv64-unknown-elf-g++")),
            Action::Spawn(version_probe("riscv64-unknown-elf-objcopy")),
            Action::Exit(0),
        ]
    );
    assert_eq!(
        driver.stage(),
        Stage::Failed(BuildError::Toolchain(ToolchainError::NotFound(
            "riscv64-unknown-elf-objcopy".to_string()
        )))
    );
    assert!(driver.runs.is_empty());
    assert!(text_of(&said).ends_with(
        "Checking riscv64-unknown-elf-g++... installed.\n\
         Checking riscv64-unknown-elf-objcopy... not installed.\n"
    ));
}

#[test]
fn failed_compile_reports_stderr_verbatim_and_stops() {
    let stderr = "blink.cpp:7:5: error: 'led' was not declared in this scope\n";
    let opts = options("blink", &["blink.cpp"]);
    let world = World { compile: failed(stderr), ..good_world() };
    let (actions, said, driver) = build(opts.clone(), &world);
    assert_eq!(actions[4..], [Action::Spawn(gpp_command(&opts, &sdk())), Action::Exit(0)]);
    assert_eq!(spawns(&actions), 3);
    assert_eq!(removals(&actions), 0);
    assert_eq!(
        driver.stage(),
        Stage::Failed(BuildError::Pipeline(PipelineError::CompileFailed(stderr.to_string())))
    );
    assert_eq!(
        driver.stage().result(),
        Some(BuildResult { succeeded: false, diagnostics: stderr.to_string() })
    );
    assert!(text_of(&said).ends_with(
        "Building ELF binary from sources... something went wrong.\n\
         blink.cpp:7:5: error: 'led' was not declared in this scope\n\n"
    ));
}

#[test]
fn compiler_that_cannot_be_started_fails_without_diagnostics() {
    let world = World { compile: None, ..good_world() };
    let (actions, said, driver) = build(options("a", &["m.cpp"]), &world);
    assert_eq!(spawns(&actions), 3);
    assert_eq!(
        driver.stage(),
        Stage::Failed(BuildError::Pipeline(PipelineError::CompileFailed(String::new())))
    );
    assert!(text_of(&said)
        .ends_with("Building ELF binary from sources... something went wrong.\n\n"));
}

#[test]
fn failed_extraction_never_reaches_cleanup() {
    let opts = options("blink", &["blink.cpp"]);
    let world = World { extract: failed("objcopy: bad"), ..good_world() };
    let (actions, said, driver) = build(opts.clone(), &world);
    assert_eq!(actions[5..], [Action::Spawn(objcopy_command(&opts)), Action::Exit(0)]);
    assert_eq!(removals(&actions), 0);
    assert_eq!(driver.stage(), Stage::Failed(BuildError::Pipeline(PipelineError::ExtractFailed)));
    assert_eq!(
        driver.stage().result(),
        Some(BuildResult { succeeded: false, diagnostics: String::new() })
    );
    assert!(text_of(&said).ends_with(
        "Building ELF binary from sources... done!\n\
         Generating raw binary output from ELF file... something went wrong.\n"
    ));
}

#[test]
fn failed_cleanup_fails_the_build() {
    let world = World { remove: false, ..good_world() };
    let (actions, said, driver) = build(options("a", &["m.cpp"]), &world);
    assert_eq!(actions[6..], [Action::Remove("a.out".to_string()), Action::Exit(0)]);
    assert_eq!(driver.stage(), Stage::Failed(BuildError::Pipeline(PipelineError::CleanupFailed)));
    assert!(text_of(&said)
        .ends_with("Deleting ELF binary output file... something went wrong.\n"));
    assert!(!text_of(&said).contains("Task"));
}

#[test]
fn event_that_answers_nothing_is_passed_over() {
    let (mut driver, first) = Driver::new(options("a", &["m.cpp"]));
    let start = driver.clone();
    assert_eq!(driver.step(Event::Spawned(ok())), Step { say: vec![], action: first.action.clone() });
    assert_eq!(driver.step(Event::Removed(true)), Step { say: vec![], action: first.action.clone() });
    assert_eq!(driver, start);
    driver.step(Event::Looked(dir("/l")));
    driver.step(Event::Looked(dir("/s")));
    let probing = driver.clone();
    let step = driver.step(Event::Looked(dir("/x")));
    assert_eq!(step, Step { say: vec![], action: Action::Spawn(version_probe("riscv64-unknown-elf-g++")) });
    assert_eq!(driver.step(Event::Removed(false)), step);
    assert_eq!(driver, probing);
}

#[test]
fn finished_build_is_final() {
    let (_, _, mut driver) = build(options("a", &["m.cpp"]), &good_world());
    let done = driver.clone();
    for event in [Event::Looked(dir("/l")), Event::Spawned(failed("x")), Event::Removed(false)] {
        assert_eq!(driver.step(event), Step { say: vec![], action: Action::Exit(0) });
        assert_eq!(driver, done);
    }
    let world = World { compile: failed("e"), ..good_world() };
    let (_, _, mut driver) = build(options("a", &["m.cpp"]), &world);
    let failed_build = driver.clone();
    for event in [Event::Spawned(ok()), Event::Removed(true)] {
        assert_eq!(driver.step(event), Step { say: vec![], action: Action::Exit(0) });
        assert_eq!(driver, failed_build);
    }
}

#[test]
fn same_answers_give_the_same_build() {
    for world in [
        good_world(),
        World { compile: failed("e1\ne2\n"), ..good_world() },
        World { extract: None, ..good_world() },
        World { objcopy_probe: None, ..good_world() },
    ] {
        let first = build(options("x", &["a.cpp", "b.cpp"]), &world);
        let second = build(options("x", &["a.cpp", "b.cpp"]), &world);
        assert_eq!(first, second);
        assert_eq!(first.2.stage().result(), second.2.stage().result());
    }
}

#[test]
fn step_reports_then_announces() {
    let (mut driver, _) = Driver::new(options("a", &["m.cpp"]));
    let step = driver.step(Event::Looked(dir("/l")));
    assert_eq!(
        step.say,
        vec![
            Span::of("variable "),
            Span::of("found").green().bold(),
            Span::of(".\n"),
            Span::of("Checking '"),
            Span::of("RISHKA_SCRIPTS").cyan().italic(),
            Span::of("'... "),
        ]
    );
    assert_eq!(step.action, Action::Lookup("RISHKA_SCRIPTS".to_string()));
    let step = driver.step(Event::Looked(dir("/s")));
    assert_eq!(
        step.say[3..],
        [Span::of("Checking "), Span::of("riscv64-unknown-elf-g++").cyan().italic(), Span::of("... ")]
    );
    driver.step(Event::Spawned(ok()));
    let step = driver.step(Event::Spawned(ok()));
    assert_eq!(
        step.say,
        vec![
            Span::of("installed").green().bold(),
            Span::of(".\n"),
            Span::of("Building").blue().bold(),
            Span::of(" ELF binary from sources... "),
        ]
    );
    let step = driver.step(Event::Spawned(ok()));
    assert_eq!(
        step.say,
        vec![
            Span::of("done").yellow().bold(),
            Span::of("!\n"),
            Span::of("Generating").blue().bold(),
            Span::of(" raw binary output from ELF file... "),
        ]
    );
    let step = driver.step(Event::Spawned(ok()));
    assert_eq!(
        step.say,
        vec![
            Span::of("done").yellow().bold(),
            Span::of("!\n"),
            Span::of("Deleting").red().bold(),
            Span::of(" ELF binary output file... "),
        ]
    );
    let step = driver.step(Event::Removed(true));
    assert_eq!(
        step.say,
        vec![
            Span::of("deleted").yellow().bold(),
            Span::of("!\n"),
            Span::of("Task "),
            Span::of("done").green().bold(),
            Span::of("!\n"),
        ]
    );
    assert_eq!(step.action, Action::Exit(0));
}

#[test]
fn compile_task_walks_the_pipeline() {
    let opts = options("fw", &["a.cpp"]);
    assert_eq!(
        compile_task(&opts, &sdk(), &vec![], &vec![]),
        Stage::Compiling(gpp_command(&opts, &sdk()))
    );
    assert_eq!(
        compile_task(&opts, &sdk(), &vec![ok()], &vec![]),
        Stage::Extracting(objcopy_command(&opts))
    );
    assert_eq!(
        compile_task(&opts, &sdk(), &vec![ok(), ok()], &vec![]),
        Stage::CleaningUp("fw.out".to_string())
    );
    assert_eq!(compile_task(&opts, &sdk(), &vec![ok(), ok()], &vec![true]), Stage::Done);
}

#[test]
fn compile_task_stops_at_the_first_failure() {
    let opts = options("fw", &["a.cpp"]);
    assert_eq!(
        compile_task(&opts, &sdk(), &vec![failed("boom"), ok()], &vec![true]),
        Stage::Failed(BuildError::Pipeline(PipelineError::CompileFailed("boom".to_string())))
    );
    assert_eq!(
        compile_task(&opts, &sdk(), &vec![None], &vec![]),
        Stage::Failed(BuildError::Pipeline(PipelineError::CompileFailed(String::new())))
    );
    assert_eq!(
        compile_task(&opts, &sdk(), &vec![ok(), failed("x")], &vec![true]),
        Stage::Failed(BuildError::Pipeline(PipelineError::ExtractFailed))
    );
    assert_eq!(
        compile_task(&opts, &sdk(), &vec![ok(), None], &vec![]),
        Stage::Failed(BuildError::Pipeline(PipelineError::ExtractFailed))
    );
    assert_eq!(
        compile_task(&opts, &sdk(), &vec![ok(), ok()], &vec![false, true]),
        Stage::Failed(BuildError::Pipeline(PipelineError::CleanupFailed))
    );
}

#[test]
fn compile_task_without_input_files_is_usage() {
    let opts = options("fw", &[]);
    let usage = Stage::Failed(BuildError::Usage);
    assert_eq!(compile_task(&opts, &sdk(), &vec![], &vec![]), usage);
    assert_eq!(compile_task(&opts, &sdk(), &vec![ok()], &vec![]), usage);
    assert_eq!(compile_task(&opts, &sdk(), &vec![failed("boom")], &vec![]), usage);
    assert_eq!(compile_task(&opts, &sdk(), &vec![ok(), ok()], &vec![true]), usage);
    assert_eq!(compile_task(&opts, &sdk(), &vec![], &vec![]).action(), Action::Exit(0));
    assert_eq!(
        compile_task(&opts, &sdk(), &vec![], &vec![]).result(),
        Some(BuildResult { succeeded: false, diagnostics: String::new() })
    );
}

#[test]
fn stage_action_is_what_the_stage_waits_for() {
    let command = version_probe("x");
    assert_eq!(Stage::Resolving("V".to_string()).action(), Action::Lookup("V".to_string()));
    assert_eq!(Stage::Probing(command.clone()).action(), Action::Spawn(command.clone()));
    assert_eq!(Stage::Compiling(command.clone()).action(), Action::Spawn(command.clone()));
    assert_eq!(Stage::Extracting(command.clone()).action(), Action::Spawn(command.clone()));
    assert_eq!(Stage::CleaningUp("p".to_string()).action(), Action::Remove("p".to_string()));
    assert_eq!(Stage::Done.action(), Action::Exit(0));
    assert_eq!(Stage::Failed(BuildError::Usage).action(), Action::Exit(0));
    assert_eq!(
        Stage::Failed(BuildError::Pipeline(PipelineError::CleanupFailed)).action(),
        Action::Exit(0)
    );
    assert_eq!(
        Stage::Probing(command.clone()).ask_again(),
        Step { say: vec![], action: Action::Spawn(command) }
    );
}

#[test]
fn stage_result_exists_once_the_build_has_ended() {
    let command = version_probe("x");
    assert_eq!(Stage::Resolving("V".to_string()).result(), None);
    assert_eq!(Stage::Probing(command.clone()).result(), None);
    assert_eq!(Stage::Compiling(command.clone()).result(), None);
    assert_eq!(Stage::Extracting(command).result(), None);
    assert_eq!(Stage::CleaningUp("p".to_string()).result(), None);
    assert_eq!(
        Stage::Done.result(),
        Some(BuildResult { succeeded: true, diagnostics: String::new() })
    );
    assert_eq!(
        Stage::Failed(BuildError::Toolchain(ToolchainError::NotFound("t".to_string()))).result(),
        Some(BuildResult { succeeded: false, diagnostics: String::new() })
    );
}

#[test]
fn reports_of_the_pipeline() {
    assert_eq!(
        print_compile_report(true, "ignored"),
        vec![Span::of("done").yellow().bold(), Span::of("!\n")]
    );
    assert_eq!(
        print_compile_report(false, "err"),
        vec![Span::of("something went "), Span::of("wrong").red().bold(), Span::of(".\nerr\n")]
    );
    assert_eq!(print_extract_report(true), vec![Span::of("done").yellow().bold(), Span::of("!\n")]);
    assert_eq!(
        print_extract_report(false),
        vec![Span::of("something went "), Span::of("wrong").red().bold(), Span::of(".\n")]
    );
    assert_eq!(
        print_cleanup_report(true),
        vec![Span::of("deleted").yellow().bold(), Span::of("!\n")]
    );
    assert_eq!(print_cleanup_report(false), print_extract_report(false));
}

#[test]
fn announcements_of_the_stages() {
    assert_eq!(
        print_announcement(&Stage::Done),
        vec![Span::of("Task "), Span::of("done").green().bold(), Span::of("!\n")]
    );
    assert_eq!(print_announcement(&Stage::Failed(BuildError::Usage)), print_usage());
    assert_eq!(
        print_announcement(&Stage::Failed(BuildError::Pipeline(PipelineError::ExtractFailed))),
        vec![]
    );
    assert_eq!(
        print_announcement(&Stage::CleaningUp("a.out".to_string())),
        vec![Span::of("Deleting").red().bold(), Span::of(" ELF binary output file... ")]
    );
}
