use vstd::prelude::*;

use crate::flags::{cargo_incremental, compose_rustflags, composed_flags, incremental_of, BuildType};
use crate::process::{append_args, push_arg, push_env, Environment, ProcessSpec};
use crate::text::{split_whitespace, views, words};

verus! {

/// Every mode but debug builds with the release profile and rebuilds the
/// native library, which reads the version and target-directory markers.
pub open spec fn is_release(build_type: BuildType) -> bool {
    build_type != BuildType::Debug
}

/// The build tool's arguments: the target binary and platform, the
/// whitespace-split extra arguments from the environment, the caller's
/// arguments, then the release switch where it applies.
pub open spec fn build_arguments(
    binary: Seq<char>,
    target_triple: Seq<char>,
    env_build_args: Seq<char>,
    args: Seq<Seq<char>>,
    build_type: BuildType,
) -> Seq<Seq<char>> {
    seq!["build"@, "--bin"@, binary, "--target"@, target_triple] + words(env_build_args) + args + (
    if is_release(build_type) {
        seq!["--release"@]
    } else {
        Seq::empty()
    })
}

/// The variables set for the build: flags, incremental toggle, the separate
/// output directory and the crate root; except in debug mode, also the
/// version and target-directory markers for the native build step.
pub open spec fn build_environment(
    rustflags: Seq<char>,
    build_type: BuildType,
    target_dir: Seq<char>,
    crate_root: Seq<char>,
    tool_version: Seq<char>,
) -> Seq<(Seq<char>, Seq<char>)> {
    seq![
        ("RUSTFLAGS"@, rustflags),
        ("CARGO_INCREMENTAL"@, incremental_of(build_type)),
        ("CARGO_TARGET_DIR"@, target_dir),
        ("CRATE_ROOT"@, crate_root),
    ] + (if build_type != BuildType::Debug {
        seq![
            ("CARGO_HONGGFUZZ_BUILD_VERSION"@, tool_version),
            ("CARGO_HONGGFUZZ_TARGET_DIR"@, target_dir),
        ]
    } else {
        Seq::empty()
    })
}

/// The build of `binary` in `build_type` mode: the build tool, started with
/// the composed flags and the markers that the native build step checks.
pub fn hongg_build(
    binary: &str,
    extra_rustflags: &str,
    args: Vec<String>,
    crate_root: &str,
    build_type: BuildType,
    target_triple: &str,
    target_dir: &str,
    env: &Environment,
) -> (r: ProcessSpec)
    ensures
        r@.program == env.cargo@,
        r@.args == build_arguments(
            binary@,
            target_triple@,
            env.build_args@,
            views(args@),
            build_type,
        ),
        r@.env == build_environment(
            composed_flags(build_type, env.support, extra_rustflags@),
            build_type,
            target_dir@,
            crate_root@,
            env.tool_version@,
        ),
{
    let rustflags = compose_rustflags(build_type, env.support, extra_rustflags);

    let mut arguments: Vec<String> = Vec::new();
    push_arg(&mut arguments, "build");
    push_arg(&mut arguments, "--bin");
    push_arg(&mut arguments, binary);
    push_arg(&mut arguments, "--target");
    push_arg(&mut arguments, target_triple);
    append_args(&mut arguments, split_whitespace(env.build_args.as_str()));
    append_args(&mut arguments, args);

    let mut vars = Vec::new();
    push_env(&mut vars, "RUSTFLAGS", rustflags.as_str());
    push_env(&mut vars, "CARGO_INCREMENTAL", cargo_incremental(build_type));
    push_env(&mut vars, "CARGO_TARGET_DIR", target_dir);
    push_env(&mut vars, "CRATE_ROOT", crate_root);
    if build_type != BuildType::Debug {
        push_env(&mut vars, "CARGO_HONGGFUZZ_BUILD_VERSION", env.tool_version.as_str());
        push_env(&mut vars, "CARGO_HONGGFUZZ_TARGET_DIR", target_dir);
        push_arg(&mut arguments, "--release");
    }
    let r = ProcessSpec { program: env.cargo.clone(), args: arguments, env: vars };
    assert(r@.args =~= build_arguments(
        binary@,
        target_triple@,
        env.build_args@,
        views(args@),
        build_type,
    ));
    assert(r@.env =~= build_environment(
        rustflags@,
        build_type,
        target_dir@,
        crate_root@,
        env.tool_version@,
    ));
    r
}

/// Cleaning the separate output directory.
pub fn hongg_clean(args: Vec<String>, target_dir: &str, env: &Environment) -> (r: ProcessSpec)
    ensures
        r@.program == env.cargo@,
        r@.args == seq!["clean"@] + views(args@),
        r@.env == seq![("CARGO_TARGET_DIR"@, target_dir@)],
{
    let mut arguments: Vec<String> = Vec::new();
    push_arg(&mut arguments, "clean");
    append_args(&mut arguments, args);
    let mut vars = Vec::new();
    push_env(&mut vars, "CARGO_TARGET_DIR", target_dir);
    let r = ProcessSpec { program: env.cargo.clone(), args: arguments, env: vars };
    assert(r@.args =~= seq!["clean"@] + views(args@));
    assert(r@.env =~= seq![("CARGO_TARGET_DIR"@, target_dir@)]);
    r
}

} // verus!
