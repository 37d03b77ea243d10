use honggfuzz::{cargo_incremental, compose_rustflags, BuildType, HostSupport};

const LINUX: HostSupport = HostSupport { is_macos: false, has_gold_linker: false };

#[test]
fn debug_flags() {
    assert_eq!(
        compose_rustflags(BuildType::Debug, LINUX, ""),
        "--cfg fuzzing -C debug-assertions -C overflow_checks --cfg fuzzing_debug -C opt-level=0 -C debuginfo=2 "
    );
}

#[test]
fn profile_flags() {
    assert_eq!(
        compose_rustflags(BuildType::ProfileWithGrcov, LINUX, ""),
        "--cfg fuzzing -C debug-assertions -C overflow_checks --cfg fuzzing_debug -Zprofile -Cpanic=abort -C opt-level=0 -C debuginfo=2 -Ccodegen-units=1 -Cinline-threshold=0 -Clink-dead-code "
    );
}

#[test]
fn release_not_instrumented_flags() {
    let gold = HostSupport { is_macos: false, has_gold_linker: true };
    assert_eq!(
        compose_rustflags(BuildType::ReleaseNotInstrumented, gold, ""),
        "--cfg fuzzing -C debug-assertions -C overflow_checks -C opt-level=3 -C target-cpu=native -C debuginfo=0 "
    );
}

#[test]
fn release_instrumented_flags_linux() {
    assert_eq!(
        compose_rustflags(BuildType::ReleaseInstrumented, LINUX, ""),
        "--cfg fuzzing -C debug-assertions -C overflow_checks -C opt-level=3 -C target-cpu=native -C debuginfo=0 \
         -C passes=sancov -C llvm-args=-sanitizer-coverage-level=4 -C llvm-args=-sanitizer-coverage-trace-pc-guard \
         -C llvm-args=-sanitizer-coverage-trace-divs -C llvm-args=-sanitizer-coverage-trace-compares "
    );
}

#[test]
fn release_instrumented_flags_macos_with_gold() {
    let host = HostSupport { is_macos: true, has_gold_linker: true };
    let r = compose_rustflags(BuildType::ReleaseInstrumented, host, "");
    assert!(!r.contains("trace-compares"));
    assert!(r.ends_with("-C llvm-args=-sanitizer-coverage-trace-divs -Clink-arg=-fuse-ld=gold "));
}

#[test]
fn extra_flags_come_last() {
    let extra = "-Z sanitizer=address -C opt-level=1";
    for mode in [
        BuildType::ReleaseInstrumented,
        BuildType::ReleaseNotInstrumented,
        BuildType::ProfileWithGrcov,
        BuildType::Debug,
    ] {
        let base = compose_rustflags(mode, LINUX, "");
        let r = compose_rustflags(mode, LINUX, extra);
        assert_eq!(r, format!("{}{}", base, extra));
        assert!(r.starts_with("--cfg fuzzing "));
    }
}

#[test]
fn compose_is_deterministic() {
    let a = compose_rustflags(BuildType::ReleaseInstrumented, LINUX, "-C x");
    let b = compose_rustflags(BuildType::ReleaseInstrumented, LINUX, "-C x");
    assert_eq!(a.as_bytes(), b.as_bytes());
}

#[test]
fn incremental_toggle() {
    assert_eq!(cargo_incremental(BuildType::ProfileWithGrcov), "0");
    assert_eq!(cargo_incremental(BuildType::Debug), "1");
    assert_eq!(cargo_incremental(BuildType::ReleaseInstrumented), "1");
    assert_eq!(cargo_incremental(BuildType::ReleaseNotInstrumented), "1");
}
