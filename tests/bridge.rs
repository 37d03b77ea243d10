use honggfuzz::{
    after_user_code, begin_iteration, bridge_mode, run_user_code, BridgeAction, BridgeMode,
    IterationStart, Outcome, PanicHookState,
};

/// User code of the end-to-end scenario: it "panics" only on `hey`.
fn hey_target(data: &[u8]) -> Outcome {
    if data.len() != 3 {
        return Outcome::Returned;
    }
    if data[0] != b'h' || data[1] != b'e' || data[2] != b'y' {
        return Outcome::Returned;
    }
    Outcome::Panicked
}

#[test]
fn modes_from_markers() {
    assert_eq!(bridge_mode(false, false), BridgeMode::NotBuilt);
    assert_eq!(bridge_mode(false, true), BridgeMode::NotBuilt);
    assert_eq!(bridge_mode(true, false), BridgeMode::Live);
    assert_eq!(bridge_mode(true, true), BridgeMode::Replay);
}

#[test]
fn not_built_refuses_with_seventeen() {
    let mut hook = PanicHookState::new();
    assert_eq!(begin_iteration(BridgeMode::NotBuilt, &mut hook), IterationStart::Refuse(17));
}

#[test]
fn hook_installed_once() {
    let mut hook = PanicHookState::new();
    assert_eq!(
        begin_iteration(BridgeMode::Live, &mut hook),
        IterationStart::PullInput { install_hook: true }
    );
    for _ in 0..3 {
        assert_eq!(
            begin_iteration(BridgeMode::Live, &mut hook),
            IterationStart::PullInput { install_hook: false }
        );
    }
}

#[test]
fn replay_loads_crash_file() {
    let mut hook = PanicHookState::new();
    assert_eq!(begin_iteration(BridgeMode::Replay, &mut hook), IterationStart::LoadCrashFile);
}

#[test]
fn empty_input_reaches_user_code() {
    let mut seen: Option<Vec<u8>> = None;
    run_user_code(&[], |d: &[u8]| seen = Some(d.to_vec()));
    assert_eq!(seen, Some(vec![]));
}

#[test]
fn live_panic_aborts() {
    assert_eq!(after_user_code(BridgeMode::Live, Outcome::Panicked), BridgeAction::Abort);
    assert_eq!(after_user_code(BridgeMode::Live, Outcome::Returned), BridgeAction::NextIteration);
}

#[test]
fn replay_passes_exact_bytes_and_reports_no_reproduction() {
    let crash = [0x71u8, 0x77, 0x65];
    let mut seen: Vec<u8> = Vec::new();
    let outcome = run_user_code(&crash, |d: &[u8]| {
        seen.extend_from_slice(d);
        Outcome::Returned
    });
    assert_eq!(seen, b"qwe".to_vec());
    assert_eq!(after_user_code(BridgeMode::Replay, outcome), BridgeAction::Exit(2));
}

#[test]
fn hey_input_aborts_live_process() {
    let outcome = run_user_code(b"hey", hey_target);
    assert_eq!(after_user_code(BridgeMode::Live, outcome), BridgeAction::Abort);
}

#[test]
fn near_miss_inputs_return_normally() {
    let base = *b"hey";
    for pos in 0..3 {
        for b in [0u8, b'a', b'z', 0xff] {
            let mut input = base;
            if input[pos] == b {
                continue;
            }
            input[pos] = b;
            let outcome = run_user_code(&input, hey_target);
            assert_eq!(after_user_code(BridgeMode::Live, outcome), BridgeAction::NextIteration);
        }
    }
}
