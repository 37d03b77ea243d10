use vstd::prelude::*;

use crate::debugger::{debugger_arguments, debugger_command, lldb_family, path_file_name};
use crate::engine::{
    artifact_path, default_input, engine_arguments, hongg_run, sanitizer_environment,
    HonggfuzzLaunchArgs,
};
use crate::flags::{composed_flags, BuildType};
use crate::process::{append_args, push_env, Environment, ProcV, ProcessSpec};
use crate::text::{join, joined, opt_view, views};
use crate::toolchain::{build_arguments, build_environment, hongg_build, hongg_clean};

verus! {

/// One thing the orchestration has the host do, in order.
#[derive(Debug, Clone, PartialEq, Eq)]
pub enum Step {
    /// Start a process and wait; a failure makes this process exit with the
    /// child's status.
    Spawn(ProcessSpec),
    /// Create a directory and its parents; one that exists already is fine.
    CreateDirAll(String),
    /// Replace the current process; coming back at all is a failure.
    Exec(ProcessSpec),
}

/// The abstract value of a [`Step`].
pub enum StepV {
    Spawn(ProcV),
    CreateDirAll(Seq<char>),
    Exec(ProcV),
}

impl View for Step {
    type V = StepV;

    open spec fn view(&self) -> StepV {
        match self {
            Step::Spawn(p) => StepV::Spawn(p@),
            Step::CreateDirAll(d) => StepV::CreateDirAll(d@),
            Step::Exec(p) => StepV::Exec(p@),
        }
    }
}

pub open spec fn steps_view(s: Seq<Step>) -> Seq<StepV> {
    s.map_values(|x: Step| x@)
}

/// The position of the first `--` in `args`, or its length if there is none.
pub open spec fn separator_index(args: Seq<Seq<char>>) -> nat
    decreases args.len(),
{
    if args.len() == 0 {
        0
    } else if args[0] == "--"@ {
        0
    } else {
        1 + separator_index(args.drop_first())
    }
}

/// The arguments before the first `--`: those of the build tool.
pub open spec fn args_before_separator(args: Seq<Seq<char>>) -> Seq<Seq<char>> {
    args.take(separator_index(args) as int)
}

/// The arguments after the first `--`: those of the target.
pub open spec fn args_after_separator(args: Seq<Seq<char>>) -> Seq<Seq<char>> {
    if separator_index(args) < args.len() {
        args.skip(separator_index(args) + 1int)
    } else {
        Seq::empty()
    }
}

proof fn lemma_separator_index(args: Seq<Seq<char>>, k: int)
    requires
        0 <= k <= args.len(),
        forall|i: int| 0 <= i < k ==> args[i] != "--"@,
        k < args.len() ==> args[k] == "--"@,
    ensures
        separator_index(args) == k,
    decreases k,
{
    if k > 0 {
        let rest = args.drop_first();
        assert forall|i: int| 0 <= i < k - 1 implies rest[i] != "--"@ by {
            assert(rest[i] == args[i + 1]);
        }
        lemma_separator_index(rest, k - 1);
        assert(args[0] != "--"@);
    }
}

/// Splits `args` at the first `--`, which belongs to neither part.
pub fn split_at_separator(args: Vec<String>) -> (r: (Vec<String>, Vec<String>))
    ensures
        views(r.0@) == args_before_separator(views(args@)),
        views(r.1@) == args_after_separator(views(args@)),
{
    let ghost a = views(args@);
    let sep = String::from_str("--");
    let mut before: Vec<String> = Vec::new();
    let mut after: Vec<String> = Vec::new();
    let mut found = false;
    let mut k: usize = 0;
    let mut i: usize = 0;
    while i < args.len()
        invariant
            a == views(args@),
            sep@ == "--"@,
            0 <= i <= args@.len(),
            k <= i,
            !found ==> k == i,
            forall|j: int| 0 <= j < k ==> a[j] != "--"@,
            found ==> k < i && a[k as int] == "--"@,
            views(before@) == a.take(k as int),
            found ==> views(after@) == a.subrange(k + 1, i as int),
            !found ==> after@.len() == 0,
        decreases args@.len() - i,
    {
        let item = args[i].clone();
        assert(a[i as int] == item@);
        let ghost b0 = before@;
        let ghost t0 = after@;
        if found {
            after.push(item);
            assert(after@.drop_last() == t0);
            assert(views(after@) =~= views(t0).push(a[i as int]));
            assert(views(after@) =~= a.subrange(k + 1, i + 1));
        } else if item == sep {
            found = true;
        } else {
            before.push(item);
            assert(before@.drop_last() == b0);
            assert(views(before@) =~= views(b0).push(a[i as int]));
            assert(views(before@) =~= a.take(i + 1));
            k = k + 1;
        }
        i += 1;
    }
    proof {
        lemma_separator_index(a, k as int);
        assert(views(after@) =~= args_after_separator(a));
    }
    (before, after)
}

/// Building `binary` as the build step of a launch.
pub open spec fn build_step(
    build_type: BuildType,
    target_triple: Seq<char>,
    args: Seq<Seq<char>>,
    rustflags: Seq<char>,
    crate_root: Seq<char>,
    target_dir: Seq<char>,
    binary: Seq<char>,
    env: Environment,
) -> StepV {
    StepV::Spawn(
        ProcV {
            program: env.cargo@,
            args: build_arguments(binary, target_triple, env.build_args@, args, build_type),
            env: build_environment(
                composed_flags(build_type, env.support, rustflags),
                build_type,
                target_dir,
                crate_root,
                env.tool_version@,
            ),
        },
    )
}

/// The corpus directory: the one given, else the default under the
/// workspace.
pub open spec fn input_or_default(
    input: Option<Seq<char>>,
    workspace: Seq<char>,
    binary: Seq<char>,
) -> Seq<char> {
    match input {
        Some(i) => i,
        None => default_input(workspace, binary),
    }
}

/// Build, then (unless only building) create the corpus directory and
/// replace this process with the engine.
pub open spec fn fuzz_plan(
    build_type: BuildType,
    launch: HonggfuzzLaunchArgs,
    target_triple: Seq<char>,
    args: Seq<Seq<char>>,
    workspace: Seq<char>,
    rustflags: Seq<char>,
    input: Option<Seq<char>>,
    crate_root: Seq<char>,
    target_dir: Seq<char>,
    binary: Seq<char>,
    build_only: bool,
    env: Environment,
) -> Seq<StepV> {
    let build = build_step(
        build_type,
        target_triple,
        args_before_separator(args),
        rustflags,
        crate_root,
        target_dir,
        binary,
        env,
    );
    if build_only {
        seq![build]
    } else {
        seq![
            build,
            StepV::CreateDirAll(default_input(workspace, binary)),
            StepV::Exec(
                ProcV {
                    program: joined(target_dir, "honggfuzz"@),
                    args: engine_arguments(
                        launch,
                        target_triple,
                        binary,
                        args_after_separator(args),
                        input_or_default(input, workspace, binary),
                        workspace,
                        target_dir,
                        env.run_args@,
                    ),
                    env: sanitizer_environment(env.asan_options@, env.tsan_options@),
                },
            ),
        ]
    }
}

/// Builds `binary` and starts the engine on it: the arguments before `--` go
/// to the build tool, those after it to the target.
pub fn launch_honggfuzz(
    build_type: BuildType,
    launch: HonggfuzzLaunchArgs,
    target_triple: &str,
    args: Vec<String>,
    workspace: &str,
    rustflags: &str,
    input: Option<String>,
    crate_root: &str,
    target_dir: &str,
    binary: &str,
    build_only: bool,
    env: &Environment,
) -> (r: Vec<Step>)
    ensures
        steps_view(r@) == fuzz_plan(
            build_type,
            launch,
            target_triple@,
            views(args@),
            workspace@,
            rustflags@,
            opt_view(input),
            crate_root@,
            target_dir@,
            binary@,
            build_only,
            *env,
        ),
{
    let (build_args, target_args) = split_at_separator(args);
    let build = hongg_build(
        binary,
        rustflags,
        build_args,
        crate_root,
        build_type,
        target_triple,
        target_dir,
        env,
    );
    let mut steps: Vec<Step> = Vec::new();
    steps.push(Step::Spawn(build));
    if build_only {
        assert(steps_view(steps@) =~= fuzz_plan(
            build_type,
            launch,
            target_triple@,
            views(args@),
            workspace@,
            rustflags@,
            opt_view(input),
            crate_root@,
            target_dir@,
            binary@,
            build_only,
            *env,
        ));
        return steps;
    }
    let ghost given = opt_view(input);
    let input = match input {
        Some(i) => i,
        None => {
            let w = join(workspace, binary);
            join(w.as_str(), "input")
        },
    };
    let run = hongg_run(
        launch,
        target_triple,
        binary,
        target_args,
        input.as_str(),
        workspace,
        target_dir,
        env,
    );
    steps.push(Step::CreateDirAll(run.input_dir));
    steps.push(Step::Exec(run.engine));
    assert(steps_view(steps@) =~= fuzz_plan(
        build_type,
        launch,
        target_triple@,
        views(args@),
        workspace@,
        rustflags@,
        given,
        crate_root@,
        target_dir@,
        binary@,
        build_only,
        *env,
    ));
    steps
}

/// Options shared by the subcommands.
#[derive(Debug, Clone, PartialEq, Eq)]
pub struct CommonOpts {
    /// Only build the binary; do not run it.
    pub only_build: bool,
    /// Compiler flags added after the mode's own.
    pub rustflags: Option<String>,
    /// Build-tool arguments of the debug build.
    pub build_args: Option<String>,
    /// The engine's working directory.
    pub workspace: String,
}

/// What the orchestration tool was asked to do.
#[derive(Debug, Clone, PartialEq, Eq)]
pub enum SubCommand {
    /// Build and fuzz.
    Fuzz {
        common: CommonOpts,
        input: Option<String>,
        binary: String,
        no_instr: bool,
        grcov: bool,
        launch: HonggfuzzLaunchArgs,
        args: Vec<String>,
    },
    /// Build in debug mode and replay a crash under a debugger.
    Debug {
        common: CommonOpts,
        debugger: String,
        binary: String,
        crash_file: String,
        target_args: Vec<String>,
    },
    /// Build and minimise the corpus.
    Minimize {
        common: CommonOpts,
        input: Option<String>,
        output: Option<String>,
        binary: String,
        no_instr: bool,
        grcov: bool,
        args: Vec<String>,
    },
    /// Clean the separate output directory.
    Clean { args: Vec<String> },
}

/// The mode that the instrumentation switches select: no instrumentation
/// wins over profiling, which wins over the default.
pub open spec fn build_type_for(no_instr: bool, grcov: bool) -> BuildType {
    if no_instr {
        BuildType::ReleaseNotInstrumented
    } else if grcov {
        BuildType::ProfileWithGrcov
    } else {
        BuildType::ReleaseInstrumented
    }
}

pub fn to_buildty(no_instr: bool, grcov: bool) -> (r: BuildType)
    ensures
        r == build_type_for(no_instr, grcov),
{
    if no_instr {
        BuildType::ReleaseNotInstrumented
    } else if grcov {
        BuildType::ProfileWithGrcov
    } else {
        BuildType::ReleaseInstrumented
    }
}

/// An optional string, empty where absent.
pub open spec fn text_or_empty(s: Option<String>) -> Seq<char> {
    match s {
        Some(v) => v@,
        None => Seq::empty(),
    }
}

/// An optional string as a list of zero or one argument.
pub open spec fn optional_arg(s: Option<String>) -> Seq<Seq<char>> {
    match s {
        Some(v) => seq![v@],
        None => Seq::empty(),
    }
}

/// The backtrace toggle for the replay: the inherited one, else on.
pub open spec fn backtrace_value(inherited: Option<String>) -> Seq<char> {
    match inherited {
        Some(v) => v@,
        None => "1"@,
    }
}

/// Build in debug mode, then (unless only building) run the debugger on the
/// binary, with the crash file named for the replay bridge.
pub open spec fn debug_plan(
    common: CommonOpts,
    debugger: Seq<char>,
    binary: Seq<char>,
    crash_file: Seq<char>,
    target_args: Seq<Seq<char>>,
    crate_root: Seq<char>,
    target_triple: Seq<char>,
    target_dir: Seq<char>,
    env: Environment,
) -> Seq<StepV> {
    let build = build_step(
        BuildType::Debug,
        target_triple,
        optional_arg(common.build_args),
        text_or_empty(common.rustflags),
        crate_root,
        target_dir,
        binary,
        env,
    );
    if common.only_build {
        seq![build]
    } else {
        seq![
            build,
            StepV::Spawn(
                ProcV {
                    program: debugger,
                    args: debugger_arguments(
                        lldb_family(path_file_name(debugger)),
                        artifact_path(target_dir, target_triple, "debug"@, binary),
                    ) + target_args,
                    env: seq![
                        ("CARGO_HONGGFUZZ_CRASH_FILENAME"@, crash_file),
                        ("RUST_BACKTRACE"@, backtrace_value(env.rust_backtrace)),
                    ],
                },
            ),
        ]
    }
}

/// The steps of a subcommand.
pub open spec fn launch_plan(
    command: SubCommand,
    crate_root: Seq<char>,
    target_triple: Seq<char>,
    target_dir: Seq<char>,
    env: Environment,
) -> Seq<StepV> {
    match command {
        SubCommand::Clean { args } => seq![
            StepV::Spawn(
                ProcV {
                    program: env.cargo@,
                    args: seq!["clean"@] + views(args@),
                    env: seq![("CARGO_TARGET_DIR"@, target_dir)],
                },
            ),
        ],
        SubCommand::Minimize { common, input, output, binary, no_instr, grcov, args } => fuzz_plan(
            build_type_for(no_instr, grcov),
            HonggfuzzLaunchArgs::none_spec(),
            target_triple,
            views(args@),
            common.workspace@,
            text_or_empty(common.rustflags),
            opt_view(input),
            crate_root,
            target_dir,
            binary@,
            false,
            env,
        ),
        SubCommand::Fuzz { common, input, binary, no_instr, grcov, launch, args } => fuzz_plan(
            build_type_for(no_instr, grcov),
            launch,
            target_triple,
            views(args@),
            common.workspace@,
            text_or_empty(common.rustflags),
            opt_view(input),
            crate_root,
            target_dir,
            binary@,
            common.only_build,
            env,
        ),
        SubCommand::Debug { common, debugger, binary, crash_file, target_args } => debug_plan(
            common,
            debugger@,
            binary@,
            crash_file@,
            views(target_args@),
            crate_root,
            target_triple,
            target_dir,
            env,
        ),
    }
}

fn text_or_default(s: &Option<String>) -> (r: String)
    ensures
        r@ == text_or_empty(*s),
{
    match s {
        Some(v) => v.clone(),
        None => String::new(),
    }
}

impl SubCommand {
    /// The steps that carry out this subcommand from `crate_root`, for a
    /// compiler of platform `target_triple` and the output directory
    /// `target_dir`.
    pub fn launch(self, crate_root: &str, target_triple: &str, target_dir: &str, env: &Environment) -> (r: Vec<Step>)
        ensures
            steps_view(r@) == launch_plan(self, crate_root@, target_triple@, target_dir@, *env),
    {
        match self {
            SubCommand::Clean { args } => {
                let mut steps: Vec<Step> = Vec::new();
                steps.push(Step::Spawn(hongg_clean(args, target_dir, env)));
                assert(steps_view(steps@) =~= launch_plan(
                    SubCommand::Clean { args },
                    crate_root@,
                    target_triple@,
                    target_dir@,
                    *env,
                ));
                steps
            },
            SubCommand::Minimize { common, input, output, binary, no_instr, grcov, args } => {
                let rustflags = text_or_default(&common.rustflags);
                launch_honggfuzz(
                    to_buildty(no_instr, grcov),
                    HonggfuzzLaunchArgs::none(),
                    target_triple,
                    args,
                    common.workspace.as_str(),
                    rustflags.as_str(),
                    input,
                    crate_root,
                    target_dir,
                    binary.as_str(),
                    false,
                    env,
                )
            },
            SubCommand::Fuzz { common, input, binary, no_instr, grcov, launch, args } => {
                let rustflags = text_or_default(&common.rustflags);
                launch_honggfuzz(
                    to_buildty(no_instr, grcov),
                    launch,
                    target_triple,
                    args,
                    common.workspace.as_str(),
                    rustflags.as_str(),
                    input,
                    crate_root,
                    target_dir,
                    binary.as_str(),
                    common.only_build,
                    env,
                )
            },
            SubCommand::Debug { common, debugger, binary, crash_file, target_args } => {
                let ghost plan = launch_plan(self, crate_root@, target_triple@, target_dir@, *env);
                let rustflags = text_or_default(&common.rustflags);
                let mut build_args: Vec<String> = Vec::new();
                if let Some(b) = &common.build_args {
                    build_args.push(b.clone());
                }
                assert(views(build_args@) =~= optional_arg(common.build_args));
                let build = hongg_build(
                    binary.as_str(),
                    rustflags.as_str(),
                    build_args,
                    crate_root,
                    BuildType::Debug,
                    target_triple,
                    target_dir,
                    env,
                );
                let mut steps: Vec<Step> = Vec::new();
                steps.push(Step::Spawn(build));
                if common.only_build {
                    assert(steps_view(steps@) =~= plan);
                    return steps;
                }
                let mut cmd = debugger_command(
                    binary.as_str(),
                    target_dir,
                    target_triple,
                    debugger.as_str(),
                );
                append_args(&mut cmd.args, target_args);
                push_env(&mut cmd.env, "CARGO_HONGGFUZZ_CRASH_FILENAME", crash_file.as_str());
                let backtrace = match &env.rust_backtrace {
                    Some(v) => v.clone(),
                    None => String::from_str("1"),
                };
                push_env(&mut cmd.env, "RUST_BACKTRACE", backtrace.as_str());
                assert(cmd@.env =~= seq![
                    ("CARGO_HONGGFUZZ_CRASH_FILENAME"@, crash_file@),
                    ("RUST_BACKTRACE"@, backtrace_value(env.rust_backtrace)),
                ]);
                steps.push(Step::Spawn(cmd));
                assert(steps_view(steps@) =~= plan);
                steps
            },
        }
    }
}

/// Why a launch stopped.
#[derive(Debug, Clone, Copy, PartialEq, Eq, Structural)]
pub enum LaunchError {
    /// The corpus directory could not be created.
    CreateDirFailed,
    /// The engine could not replace this process.
    ExecFailed,
}

/// What the orchestration does once a step has finished.
#[derive(Debug, Clone, Copy, PartialEq, Eq, Structural)]
pub enum Flow {
    /// Go on with the next step; after the last one, succeed.
    Continue,
    /// Stop and report the error.
    Stop(LaunchError),
    /// Exit this process with the code.
    Exit(i32),
}

/// The exit status passed on from a failed child: its own code, else 1.
pub open spec fn status_of(code: Option<i32>) -> i32 {
    match code {
        Some(c) => c,
        None => 1,
    }
}

/// The decision after `step`: a successful step goes on; a failed child
/// process (build, clean or debugger) makes this process exit with the
/// child's exit code, or 1 where it had none; a failed directory creation
/// stops with an error; an exec that came back is a failure.
pub open spec fn flow_after(step: StepV, success: bool, code: Option<i32>) -> Flow {
    match step {
        StepV::Exec(_) => Flow::Stop(LaunchError::ExecFailed),
        StepV::CreateDirAll(_) => if success {
            Flow::Continue
        } else {
            Flow::Stop(LaunchError::CreateDirFailed)
        },
        StepV::Spawn(_) => if success {
            Flow::Continue
        } else {
            Flow::Exit(status_of(code))
        },
    }
}

/// Decides what follows a finished step, from whether it succeeded and the
/// child's exit code.
pub fn after_step(step: &Step, success: bool, code: Option<i32>) -> (r: Flow)
    ensures
        r == flow_after(step@, success, code),
{
    match step {
        Step::Exec(_) => Flow::Stop(LaunchError::ExecFailed),
        Step::CreateDirAll(_) => if success {
            Flow::Continue
        } else {
            Flow::Stop(LaunchError::CreateDirFailed)
        },
        Step::Spawn(_) => if success {
            Flow::Continue
        } else {
            Flow::Exit(
                match code {
                    Some(c) => c,
                    None => 1,
                },
            )
        },
    }
}

} // verus!
