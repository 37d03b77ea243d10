//! Build orchestration and iteration bridge for fuzzing targets driven by an
//! external persistent-mode fuzzing engine.
//!
//! The library decides; the host acts. It composes compiler flags for a build
//! mode, checks the version handshake, finds the crate root, assembles the
//! build, engine and debugger command lines as [`process::ProcessSpec`]
//! values, orders them into [`pipeline::Step`]s, and decides what each
//! outcome leads to. Starting processes, reading the environment and the
//! foreign iteration call are left to the caller.

pub mod bridge;
pub mod debugger;
pub mod engine;
pub mod flags;
pub mod locate;
pub mod pipeline;
pub mod process;
pub mod text;
pub mod toolchain;
pub mod triple;
pub mod version;

pub use bridge::{
    after_user_code, begin_iteration, bridge_mode, run_user_code, BridgeAction, BridgeMode,
    IterationStart, Outcome, PanicHookState,
};
pub use debugger::{debugger_command, is_lldb};
pub use engine::{hongg_run, HonggfuzzLaunchArgs, ParseTimeoutError, RunPlan, TimeoutDuration};
pub use flags::{cargo_incremental, compose_rustflags, BuildType, HostSupport};
pub use locate::find_crate_root;
pub use pipeline::{
    after_step, launch_honggfuzz, split_at_separator, to_buildty, CommonOpts, Flow, LaunchError,
    Step, SubCommand,
};
pub use process::{EnvVar, Environment, ProcessSpec};
pub use toolchain::{hongg_build, hongg_clean};
pub use triple::{target_triple, TripleError};
pub use version::{check_version, marker_or_unknown, native_build_step, NativeBuild, VersionMismatch};
