use honggfuzz::{
    after_step, launch_honggfuzz, split_at_separator, to_buildty, BuildType, CommonOpts,
    Environment, Flow, HonggfuzzLaunchArgs, HostSupport, LaunchError, ProcessSpec, Step,
    SubCommand, TimeoutDuration,
};

const TRIPLE: &str = "x86_64-unknown-linux-gnu";

fn host_env() -> Environment {
    Environment {
        cargo: "/usr/bin/cargo".to_string(),
        support: HostSupport { is_macos: false, has_gold_linker: false },
        tool_version: "0.5.55".to_string(),
        build_args: "--features fuzz".to_string(),
        run_args: String::new(),
        asan_options: String::new(),
        tsan_options: String::new(),
        rust_backtrace: None,
    }
}

fn strings(v: &[&str]) -> Vec<String> {
    v.iter().map(|s| s.to_string()).collect()
}

fn pairs(p: &ProcessSpec) -> Vec<(String, String)> {
    p.env.iter().map(|v| (v.name.clone(), v.value.clone())).collect()
}

fn common(only_build: bool) -> CommonOpts {
    CommonOpts {
        only_build,
        rustflags: Some("-Z sanitizer=address".to_string()),
        build_args: None,
        workspace: "hfuzz_workspace".to_string(),
    }
}

#[test]
fn separator_splits_once() {
    let (a, b) = split_at_separator(strings(&["--offline", "--", "fff", "--", "x"]));
    assert_eq!(a, vec!["--offline"]);
    assert_eq!(b, vec!["fff", "--", "x"]);
}

#[test]
fn separator_absent_or_first() {
    let (a, b) = split_at_separator(strings(&["a", "b"]));
    assert_eq!(a, vec!["a", "b"]);
    assert!(b.is_empty());
    let (a, b) = split_at_separator(strings(&["--", "t"]));
    assert!(a.is_empty());
    assert_eq!(b, vec!["t"]);
}

#[test]
fn build_type_selection() {
    assert_eq!(to_buildty(true, true), BuildType::ReleaseNotInstrumented);
    assert_eq!(to_buildty(false, true), BuildType::ProfileWithGrcov);
    assert_eq!(to_buildty(false, false), BuildType::ReleaseInstrumented);
}

#[test]
fn build_only_plan() {
    let steps = launch_honggfuzz(
        BuildType::ReleaseInstrumented,
        HonggfuzzLaunchArgs::none(),
        TRIPLE,
        strings(&["--offline", "--", "arg"]),
        "hfuzz_workspace",
        "",
        None,
        "/proj",
        "hfuzz_target",
        "gameover",
        true,
        &host_env(),
    );
    assert_eq!(steps.len(), 1);
    let Step::Spawn(build) = &steps[0] else { panic!("not a spawn") };
    assert_eq!(build.program, "/usr/bin/cargo");
    assert_eq!(
        build.args,
        vec![
            "build", "--bin", "gameover", "--target", TRIPLE, "--features", "fuzz", "--offline",
            "--release"
        ]
    );
    let env = pairs(build);
    assert_eq!(env[1], ("CARGO_INCREMENTAL".to_string(), "1".to_string()));
    assert_eq!(env[2], ("CARGO_TARGET_DIR".to_string(), "hfuzz_target".to_string()));
    assert_eq!(env[3], ("CRATE_ROOT".to_string(), "/proj".to_string()));
    assert_eq!(env[4], ("CARGO_HONGGFUZZ_BUILD_VERSION".to_string(), "0.5.55".to_string()));
    assert_eq!(env[5], ("CARGO_HONGGFUZZ_TARGET_DIR".to_string(), "hfuzz_target".to_string()));
    assert_eq!(env.len(), 6);
}

#[test]
fn fuzz_subcommand_plan() {
    let launch = HonggfuzzLaunchArgs {
        timeout: Some(TimeoutDuration::from_secs(2)),
        exit_upon_crash: None,
        n_iterations: Some(9),
        quietly: false,
        minimize: false,
    };
    let cmd = SubCommand::Fuzz {
        common: common(false),
        input: None,
        binary: "target".to_string(),
        no_instr: false,
        grcov: false,
        launch,
        args: strings(&["--", "fff", "--xyz"]),
    };
    let steps = cmd.launch("/proj", TRIPLE, "hfuzz_target", &host_env());
    assert_eq!(steps.len(), 3);
    let Step::Spawn(build) = &steps[0] else { panic!("not a spawn") };
    assert!(pairs(build)[0].1.ends_with("-C debuginfo=0 -C passes=sancov -C llvm-args=-sanitizer-coverage-level=4 -C llvm-args=-sanitizer-coverage-trace-pc-guard -C llvm-args=-sanitizer-coverage-trace-divs -C llvm-args=-sanitizer-coverage-trace-compares -Z sanitizer=address"));
    assert_eq!(steps[1], Step::CreateDirAll("hfuzz_workspace/target/input".to_string()));
    let Step::Exec(engine) = &steps[2] else { panic!("not an exec") };
    assert_eq!(engine.program, "hfuzz_target/honggfuzz");
    assert_eq!(
        engine.args,
        vec![
            "-W",
            "hfuzz_workspace/target",
            "-f",
            "hfuzz_workspace/target/input",
            "-P",
            "-t",
            "2",
            "-N",
            "9",
            "--",
            "hfuzz_target/x86_64-unknown-linux-gnu/release/target",
            "fff",
            "--xyz",
        ]
    );
}

#[test]
fn fuzz_with_given_input() {
    let cmd = SubCommand::Fuzz {
        common: common(false),
        input: Some("corpus".to_string()),
        binary: "t".to_string(),
        no_instr: true,
        grcov: false,
        launch: HonggfuzzLaunchArgs::none(),
        args: vec![],
    };
    let steps = cmd.launch("/proj", TRIPLE, "d", &host_env());
    assert_eq!(steps[1], Step::CreateDirAll("hfuzz_workspace/t/input".to_string()));
    let Step::Exec(engine) = &steps[2] else { panic!("not an exec") };
    assert_eq!(engine.args[3], "corpus");
}

#[test]
fn grcov_build_has_markers_and_release() {
    let cmd = SubCommand::Minimize {
        common: common(true),
        input: None,
        output: None,
        binary: "t".to_string(),
        no_instr: false,
        grcov: true,
        args: vec![],
    };
    let steps = cmd.launch("/proj", TRIPLE, "d", &host_env());
    assert_eq!(steps.len(), 3);
    let Step::Spawn(build) = &steps[0] else { panic!("not a spawn") };
    assert_eq!(
        build.args,
        vec!["build", "--bin", "t", "--target", TRIPLE, "--features", "fuzz", "--release"]
    );
    let env = pairs(build);
    assert_eq!(env[1].1, "0");
    assert_eq!(env.len(), 6);
}

#[test]
fn debug_subcommand_plan() {
    let mut c = common(false);
    c.build_args = Some("--offline --locked".to_string());
    let cmd = SubCommand::Debug {
        common: c,
        debugger: "rust-gdb".to_string(),
        binary: "t".to_string(),
        crash_file: "hfuzz_workspace/t/SIGABRT.fuzz".to_string(),
        target_args: strings(&["a1"]),
    };
    let steps = cmd.launch("/proj", TRIPLE, "d", &host_env());
    assert_eq!(steps.len(), 2);
    let Step::Spawn(build) = &steps[0] else { panic!("not a spawn") };
    assert_eq!(
        build.args,
        vec!["build", "--bin", "t", "--target", TRIPLE, "--features", "fuzz", "--offline --locked"]
    );
    let env = pairs(build);
    assert_eq!(env.len(), 4);
    assert!(env[0].1.contains("--cfg fuzzing_debug"));
    let Step::Spawn(dbg) = &steps[1] else { panic!("not a debugger run") };
    assert_eq!(dbg.program, "rust-gdb");
    assert_eq!(
        dbg.args,
        vec!["-ex", "b rust_panic", "-ex", "r", "-ex", "bt", "--args", "d/x86_64-unknown-linux-gnu/debug/t", "a1"]
    );
    assert_eq!(
        pairs(dbg),
        vec![
            (
                "CARGO_HONGGFUZZ_CRASH_FILENAME".to_string(),
                "hfuzz_workspace/t/SIGABRT.fuzz".to_string()
            ),
            ("RUST_BACKTRACE".to_string(), "1".to_string()),
        ]
    );
}

#[test]
fn debug_keeps_inherited_backtrace() {
    let mut env = host_env();
    env.rust_backtrace = Some("full".to_string());
    let cmd = SubCommand::Debug {
        common: common(false),
        debugger: "rust-lldb".to_string(),
        binary: "t".to_string(),
        crash_file: "c".to_string(),
        target_args: vec![],
    };
    let steps = cmd.launch("/proj", TRIPLE, "d", &env);
    let Step::Spawn(dbg) = &steps[1] else { panic!("not a debugger run") };
    assert_eq!(pairs(dbg)[1].1, "full");
    assert_eq!(dbg.args.last().unwrap(), "--");
}

#[test]
fn clean_subcommand_plan() {
    let cmd = SubCommand::Clean { args: strings(&["-p", "x"]) };
    let steps = cmd.launch("/proj", TRIPLE, "hfuzz_target", &host_env());
    assert_eq!(steps.len(), 1);
    let Step::Spawn(c) = &steps[0] else { panic!("not a spawn") };
    assert_eq!(c.args, vec!["clean", "-p", "x"]);
    assert_eq!(pairs(c), vec![("CARGO_TARGET_DIR".to_string(), "hfuzz_target".to_string())]);
}

#[test]
fn flow_after_steps() {
    let p = ProcessSpec { program: "p".to_string(), args: vec![], env: vec![] };
    assert_eq!(after_step(&Step::Spawn(p.clone()), true, Some(0)), Flow::Continue);
    assert_eq!(after_step(&Step::Spawn(p.clone()), false, Some(101)), Flow::Exit(101));
    assert_eq!(after_step(&Step::Spawn(p.clone()), false, Some(3)), Flow::Exit(3));
    assert_eq!(after_step(&Step::Spawn(p.clone()), false, None), Flow::Exit(1));
    assert_eq!(
        after_step(&Step::CreateDirAll("d".to_string()), false, None),
        Flow::Stop(LaunchError::CreateDirFailed)
    );
    assert_eq!(after_step(&Step::CreateDirAll("d".to_string()), true, None), Flow::Continue);
    assert_eq!(after_step(&Step::Exec(p), false, None), Flow::Stop(LaunchError::ExecFailed));
}
