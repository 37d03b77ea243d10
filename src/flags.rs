use vstd::prelude::*;

verus! {

/// How a target is compiled.
#[derive(Debug, Clone, Copy, PartialEq, Eq, Structural)]
pub enum BuildType {
    /// Optimised, with coverage instrumentation for the engine.
    ReleaseInstrumented,
    /// Optimised, without coverage instrumentation.
    ReleaseNotInstrumented,
    /// Unoptimised, with profiling instrumentation.
    ProfileWithGrcov,
    /// Unoptimised, for replaying a crash under a debugger.
    Debug,
}

/// What the compiling host offers.
#[derive(Debug, Clone, Copy, PartialEq, Eq, Structural)]
pub struct HostSupport {
    /// The host is macOS, where comparison tracing needs a sanitizer.
    pub is_macos: bool,
    /// The gold linker can be found on the host.
    pub has_gold_linker: bool,
}

/// Flags present in every mode.
pub const FLAGS_ALWAYS: &'static str = "--cfg fuzzing -C debug-assertions -C overflow_checks ";

/// Flags of the debug mode.
pub const FLAGS_DEBUG: &'static str = "--cfg fuzzing_debug -C opt-level=0 -C debuginfo=2 ";

/// Flags of the profiling mode.
pub const FLAGS_PROFILE: &'static str = "--cfg fuzzing_debug -Zprofile -Cpanic=abort -C opt-level=0 -C debuginfo=2 -Ccodegen-units=1 -Cinline-threshold=0 -Clink-dead-code ";

/// Flags of both release modes.
pub const FLAGS_RELEASE: &'static str = "-C opt-level=3 -C target-cpu=native -C debuginfo=0 ";

/// Coverage instrumentation passes.
pub const FLAGS_SANCOV: &'static str = "-C passes=sancov -C llvm-args=-sanitizer-coverage-level=4 -C llvm-args=-sanitizer-coverage-trace-pc-guard -C llvm-args=-sanitizer-coverage-trace-divs ";

/// Comparison tracing, left out on macOS.
pub const FLAGS_TRACE_COMPARES: &'static str = "-C llvm-args=-sanitizer-coverage-trace-compares ";

/// Selects the gold linker.
pub const FLAGS_GOLD: &'static str = "-Clink-arg=-fuse-ld=gold ";

/// The flags that `build_type` adds to those of every mode.
pub open spec fn mode_flags(build_type: BuildType, host: HostSupport) -> Seq<char> {
    match build_type {
        BuildType::Debug => FLAGS_DEBUG@,
        BuildType::ProfileWithGrcov => FLAGS_PROFILE@,
        BuildType::ReleaseNotInstrumented => FLAGS_RELEASE@,
        BuildType::ReleaseInstrumented => FLAGS_RELEASE@ + FLAGS_SANCOV@ + (if host.is_macos {
            Seq::empty()
        } else {
            FLAGS_TRACE_COMPARES@
        }) + (if host.has_gold_linker {
            FLAGS_GOLD@
        } else {
            Seq::empty()
        }),
    }
}

/// The flags of a mode before the caller's own.
pub open spec fn default_flags(build_type: BuildType, host: HostSupport) -> Seq<char> {
    FLAGS_ALWAYS@ + mode_flags(build_type, host)
}

/// The complete compiler flags: the mode's defaults, then the caller's.
pub open spec fn composed_flags(build_type: BuildType, host: HostSupport, extra: Seq<char>) -> Seq<
    char,
> {
    default_flags(build_type, host) + extra
}

/// The incremental-compilation toggle of a mode.
pub open spec fn incremental_of(build_type: BuildType) -> Seq<char> {
    if build_type == BuildType::ProfileWithGrcov {
        "0"@
    } else {
        "1"@
    }
}

/// Composes the compiler flags of `build_type`; `extra` comes last, so that
/// it overrides any default.
pub fn compose_rustflags(build_type: BuildType, host: HostSupport, extra: &str) -> (r: String)
    ensures
        r@ == composed_flags(build_type, host, extra@),
{
    let mut flags = String::from_str(FLAGS_ALWAYS);
    match build_type {
        BuildType::Debug => {
            flags.append(FLAGS_DEBUG);
        },
        BuildType::ProfileWithGrcov => {
            flags.append(FLAGS_PROFILE);
        },
        _ => {
            flags.append(FLAGS_RELEASE);
            if build_type == BuildType::ReleaseInstrumented {
                flags.append(FLAGS_SANCOV);
                if !host.is_macos {
                    flags.append(FLAGS_TRACE_COMPARES);
                }
                if host.has_gold_linker {
                    flags.append(FLAGS_GOLD);
                }
            }
        },
    }
    assert(flags@ =~= default_flags(build_type, host));
    flags.append(extra);
    flags
}

/// The value of the incremental-compilation toggle: off for profiling, whose
/// data incremental artifacts would spoil.
pub fn cargo_incremental(build_type: BuildType) -> (r: &'static str)
    ensures
        r@ == incremental_of(build_type),
{
    match build_type {
        BuildType::ProfileWithGrcov => "0",
        _ => "1",
    }
}

/// The flags are a function of the mode, the host and the caller's flags:
/// equal inputs give equal outputs.
pub proof fn lemma_compose_deterministic(
    b1: BuildType,
    h1: HostSupport,
    e1: Seq<char>,
    b2: BuildType,
    h2: HostSupport,
    e2: Seq<char>,
)
    requires
        b1 == b2,
        h1 == h2,
        e1 == e2,
    ensures
        composed_flags(b1, h1, e1) == composed_flags(b2, h2, e2),
{
}

/// The caller's flags stand after all default flags: the composed flags
/// begin with the mode's defaults and end with the caller's flags, unchanged.
pub proof fn lemma_extra_flags_last(build_type: BuildType, host: HostSupport, extra: Seq<char>)
    ensures
        ({
            let r = composed_flags(build_type, host, extra);
            let d = default_flags(build_type, host);
            &&& r.len() == d.len() + extra.len()
            &&& r.subrange(0, d.len() as int) == d
            &&& r.subrange(d.len() as int, r.len() as int) == extra
        }),
{
    let r = composed_flags(build_type, host, extra);
    let d = default_flags(build_type, host);
    assert(r.subrange(0, d.len() as int) =~= d);
    assert(r.subrange(d.len() as int, r.len() as int) =~= extra);
}

} // verus!
