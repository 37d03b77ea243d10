use vstd::prelude::*;

verus! {

/// How a target binary was built, which fixes what each call of the bridge
/// does.
#[derive(Debug, Clone, Copy, PartialEq, Eq, Structural)]
pub enum BridgeMode {
    /// Built without the orchestration tool: refuse to run.
    NotBuilt,
    /// Built for the engine: pull inputs from it, abort on a panic.
    Live,
    /// Built for replay: run the saved crash input under a debugger.
    Replay,
}

/// Exit code of a binary that was not built for fuzzing.
pub const EXIT_NOT_BUILT: i32 = 17;

/// Exit code when the crash file cannot be named, opened or mapped.
pub const EXIT_REPLAY_UNAVAILABLE: i32 = 1;

/// Exit code when the crash input ran without a fault.
pub const EXIT_NOT_REPRODUCED: i32 = 2;

pub open spec fn mode_of(fuzzing: bool, fuzzing_debug: bool) -> BridgeMode {
    if !fuzzing {
        BridgeMode::NotBuilt
    } else if fuzzing_debug {
        BridgeMode::Replay
    } else {
        BridgeMode::Live
    }
}

/// The mode from the two build markers.
pub fn bridge_mode(fuzzing: bool, fuzzing_debug: bool) -> (r: BridgeMode)
    ensures
        r == mode_of(fuzzing, fuzzing_debug),
{
    if !fuzzing {
        BridgeMode::NotBuilt
    } else if fuzzing_debug {
        BridgeMode::Replay
    } else {
        BridgeMode::Live
    }
}

/// Whether the process-wide panic hook is in place.
#[derive(Debug)]
pub struct PanicHookState {
    installed: bool,
}

impl PanicHookState {
    pub closed spec fn is_installed(&self) -> bool {
        self.installed
    }

    pub fn new() -> (r: Self)
        ensures
            !r.is_installed(),
    {
        PanicHookState { installed: false }
    }

    /// Claims the installation: true for the first caller only.
    pub fn claim(&mut self) -> (first: bool)
        ensures
            first == !old(self).is_installed(),
            final(self).is_installed(),
    {
        let first = !self.installed;
        self.installed = true;
        first
    }
}

/// What an iteration does before user code runs.
#[derive(Debug, Clone, Copy, PartialEq, Eq, Structural)]
pub enum IterationStart {
    /// Print the guidance to rebuild and exit with this code.
    Refuse(i32),
    /// Ask the engine for the next input, after installing the aborting
    /// panic hook where `install_hook` says so.
    PullInput { install_hook: bool },
    /// Read the crash file named in the environment and map it.
    LoadCrashFile,
}

/// Starts an iteration; in live mode the first iteration of the process
/// installs the panic hook, and no later one does.
pub fn begin_iteration(mode: BridgeMode, hook: &mut PanicHookState) -> (r: IterationStart)
    ensures
        mode == BridgeMode::NotBuilt ==> r == IterationStart::Refuse(EXIT_NOT_BUILT),
        mode == BridgeMode::Live ==> r == (IterationStart::PullInput {
            install_hook: !old(hook).is_installed(),
        }),
        mode == BridgeMode::Replay ==> r == IterationStart::LoadCrashFile,
        mode == BridgeMode::Live ==> final(hook).is_installed(),
        mode != BridgeMode::Live ==> final(hook).is_installed() == old(hook).is_installed(),
{
    match mode {
        BridgeMode::NotBuilt => IterationStart::Refuse(EXIT_NOT_BUILT),
        BridgeMode::Live => {
            let first = hook.claim();
            IterationStart::PullInput { install_hook: first }
        },
        BridgeMode::Replay => IterationStart::LoadCrashFile,
    }
}

/// How user code ended.
#[derive(Debug, Clone, Copy, PartialEq, Eq, Structural)]
pub enum Outcome {
    Returned,
    Panicked,
}

/// What the bridge does once user code has ended.
#[derive(Debug, Clone, Copy, PartialEq, Eq, Structural)]
pub enum BridgeAction {
    /// Return to the caller's loop for the next input.
    NextIteration,
    /// Terminate the process abnormally, so that the engine records the
    /// crash against this input.
    Abort,
    /// Exit the process with this code.
    Exit(i32),
}

pub open spec fn action_after(mode: BridgeMode, outcome: Outcome) -> BridgeAction {
    match (mode, outcome) {
        (BridgeMode::NotBuilt, _) => BridgeAction::Exit(EXIT_NOT_BUILT),
        (_, Outcome::Panicked) => BridgeAction::Abort,
        (BridgeMode::Live, Outcome::Returned) => BridgeAction::NextIteration,
        (BridgeMode::Replay, Outcome::Returned) => BridgeAction::Exit(EXIT_NOT_REPRODUCED),
    }
}

/// The decision after user code: a panic always aborts, so that each crash
/// ends the process exactly once; a live iteration that returned goes on;
/// a replay that returned did not reproduce the crash.
pub fn after_user_code(mode: BridgeMode, outcome: Outcome) -> (r: BridgeAction)
    ensures
        r == action_after(mode, outcome),
{
    match (mode, outcome) {
        (BridgeMode::NotBuilt, _) => BridgeAction::Exit(EXIT_NOT_BUILT),
        (_, Outcome::Panicked) => BridgeAction::Abort,
        (BridgeMode::Live, Outcome::Returned) => BridgeAction::NextIteration,
        (BridgeMode::Replay, Outcome::Returned) => BridgeAction::Exit(EXIT_NOT_REPRODUCED),
    }
}

/// Hands one input buffer to user code, unchanged: an empty buffer is passed
/// through like any other.
pub fn run_user_code<R, F: FnOnce(&[u8]) -> R>(input: &[u8], user: F) -> (r: R)
    requires
        user.requires((input,)),
    ensures
        user.ensures((input,), r),
{
    user(input)
}

} // verus!
