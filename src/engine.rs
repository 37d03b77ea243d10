use vstd::prelude::*;

use crate::process::{append_args, push_arg, push_env, Environment, ProcessSpec};
use crate::text::{concat_strings, decimal, decimal_string, join, joined, split_whitespace, views, words};

verus! {

/// A run-time limit for one input, in whole seconds.
#[derive(Debug, Clone, Copy, PartialEq, Eq, Structural)]
pub struct TimeoutDuration {
    pub secs: u64,
}

/// The text is not an unsigned decimal number that fits in 64 bits.
#[derive(Debug, Clone, Copy, PartialEq, Eq, Structural)]
pub struct ParseTimeoutError;

pub open spec fn is_digit(c: char) -> bool {
    '0' <= c && c <= '9'
}

/// The number that a run of decimal digits denotes.
pub open spec fn digits_value(d: Seq<char>) -> nat
    decreases d.len(),
{
    if d.len() == 0 {
        0
    } else {
        digits_value(d.drop_last()) * 10 + (d.last() as nat - 48) as nat
    }
}

/// The digits of an unsigned number, after an optional plus sign.
pub open spec fn unsigned_digits(s: Seq<char>) -> Seq<char> {
    if s.len() > 0 && s[0] == '+' {
        s.drop_first()
    } else {
        s
    }
}

/// The value of `s` read as a 64-bit unsigned decimal number: an optional
/// plus sign, then at least one digit and nothing else, within range.
pub open spec fn unsigned_value(s: Seq<char>) -> Option<nat> {
    let d = unsigned_digits(s);
    if d.len() > 0 && (forall|i: int| 0 <= i < d.len() ==> is_digit(#[trigger] d[i]))
        && digits_value(d) <= u64::MAX {
        Some(digits_value(d))
    } else {
        None
    }
}

proof fn lemma_prefix_value_grows(d: Seq<char>, j: int, k: int)
    requires
        0 <= j <= k <= d.len(),
        forall|i: int| 0 <= i < d.len() ==> is_digit(#[trigger] d[i]),
    ensures
        digits_value(d.subrange(0, k)) >= digits_value(d.subrange(0, j)),
    decreases k - j,
{
    if j < k {
        lemma_prefix_value_grows(d, j, k - 1);
        assert(d.subrange(0, k).drop_last() =~= d.subrange(0, k - 1));
    }
}

impl TimeoutDuration {
    pub fn from_secs(secs: u64) -> (r: Self)
        ensures
            r.secs == secs,
    {
        TimeoutDuration { secs }
    }

    pub fn as_secs(&self) -> (r: u64)
        ensures
            r == self.secs,
    {
        self.secs
    }

    /// Reads a number of seconds as an unsigned decimal number.
    pub fn from_str(s: &str) -> (r: Result<Self, ParseTimeoutError>)
        ensures
            match unsigned_value(s@) {
                Some(v) => r matches Ok(t) && t.secs == v,
                None => r is Err,
            },
    {
        let n = s.unicode_len();
        let start: usize = if n > 0 && s.get_char(0) == '+' {
            1
        } else {
            0
        };
        let ghost d = unsigned_digits(s@);
        assert(d =~= s@.subrange(start as int, n as int));
        if start == n {
            return Err(ParseTimeoutError);
        }
        let mut acc: u64 = 0;
        let mut i: usize = start;
        while i < n
            invariant
                n == s@.len(),
                start <= i <= n,
                d == s@.subrange(start as int, n as int),
                d == unsigned_digits(s@),
                forall|k: int| 0 <= k < i - start ==> is_digit(#[trigger] d[k]),
                acc == digits_value(d.subrange(0, i - start)),
            decreases n - i,
        {
            let c = s.get_char(i);
            if !('0' <= c && c <= '9') {
                assert(d[i - start] == c);
                assert(!is_digit(d[i - start]));
                assert(unsigned_value(s@) is None);
                return Err(ParseTimeoutError);
            }
            let v = (c as u32 - 48) as u64;
            let ghost next = d.subrange(0, i + 1 - start);
            assert(next.drop_last() =~= d.subrange(0, i - start));
            if acc > (u64::MAX - v) / 10 {
                proof {
                    assert(digits_value(next) > u64::MAX) by (nonlinear_arith)
                        requires
                            acc > (u64::MAX - v) / 10,
                            digits_value(next) == acc * 10 + v,
                            v <= 9,
                    ;
                    if forall|k: int| 0 <= k < d.len() ==> is_digit(#[trigger] d[k]) {
                        lemma_prefix_value_grows(d, i + 1 - start, d.len() as int);
                        assert(d.subrange(0, d.len() as int) =~= d);
                        assert(digits_value(d) > u64::MAX);
                    }
                    assert(unsigned_value(s@) is None);
                }
                return Err(ParseTimeoutError);
            }
            assert(acc * 10 + v <= u64::MAX) by (nonlinear_arith)
                requires
                    acc <= (u64::MAX - v) / 10,
                    v <= 9,
            ;
            acc = acc * 10 + v;
            i += 1;
        }
        assert(d.subrange(0, n - start) =~= d);
        Ok(TimeoutDuration { secs: acc })
    }
}

/// Engine flags given on the command line; absent ones leave the engine's
/// defaults.
#[derive(Debug, Clone, Copy, PartialEq, Eq, Structural)]
pub struct HonggfuzzLaunchArgs {
    pub timeout: Option<TimeoutDuration>,
    pub exit_upon_crash: Option<u32>,
    pub n_iterations: Option<u64>,
    pub quietly: bool,
    pub minimize: bool,
}

impl HonggfuzzLaunchArgs {
    /// No flag given.
    pub open spec fn none_spec() -> Self {
        HonggfuzzLaunchArgs {
            timeout: None,
            exit_upon_crash: None,
            n_iterations: None,
            quietly: false,
            minimize: false,
        }
    }

    /// No flag given.
    pub fn none() -> (r: Self)
        ensures
            r == Self::none_spec(),
    {
        HonggfuzzLaunchArgs {
            timeout: None,
            exit_upon_crash: None,
            n_iterations: None,
            quietly: false,
            minimize: false,
        }
    }
}

impl Default for HonggfuzzLaunchArgs {
    fn default() -> (r: Self)
        ensures
            r == HonggfuzzLaunchArgs::none_spec(),
    {
        HonggfuzzLaunchArgs::none()
    }
}

/// The optional engine flags, in their fixed order: timeout, iteration cap,
/// quiet, exit code on the first crash.
pub open spec fn launch_flags(launch: HonggfuzzLaunchArgs) -> Seq<Seq<char>> {
    (match launch.timeout {
        Some(t) => seq!["-t"@, decimal(t.secs as nat)],
        None => Seq::empty(),
    }) + (match launch.n_iterations {
        Some(n) => seq!["-N"@, decimal(n as nat)],
        None => Seq::empty(),
    }) + (if launch.quietly {
        seq!["--quietly"@]
    } else {
        Seq::empty()
    }) + (match launch.exit_upon_crash {
        Some(c) => seq!["--exit_upon_crash"@, "--exit_code_upon_crash"@, decimal(c as nat)],
        None => Seq::empty(),
    })
}

/// `<target_dir>/<triple>/<profile>/<binary>`.
pub open spec fn artifact_path(
    target_dir: Seq<char>,
    target_triple: Seq<char>,
    profile: Seq<char>,
    binary: Seq<char>,
) -> Seq<char> {
    joined(joined(joined(target_dir, target_triple), profile), binary)
}

/// `<workspace>/<binary>/input`, the default corpus directory.
pub open spec fn default_input(workspace: Seq<char>, binary: Seq<char>) -> Seq<char> {
    joined(joined(workspace, binary), "input"@)
}

/// The engine's argument vector: the workspace, the corpus and persistent
/// mode, the user's engine flags, the optional flags, the separator and
/// the release binary, then the target's own arguments.
pub open spec fn engine_arguments(
    launch: HonggfuzzLaunchArgs,
    target_triple: Seq<char>,
    binary: Seq<char>,
    target_args: Seq<Seq<char>>,
    input: Seq<char>,
    workspace: Seq<char>,
    target_dir: Seq<char>,
    env_run_args: Seq<char>,
) -> Seq<Seq<char>> {
    seq!["-W"@, joined(workspace, binary), "-f"@, input, "-P"@] + words(env_run_args)
        + launch_flags(launch) + seq![
        "--"@,
        artifact_path(target_dir, target_triple, "release"@, binary),
    ] + target_args
}

/// The sanitizer options: ours first, then the inherited ones.
pub open spec fn sanitizer_environment(asan: Seq<char>, tsan: Seq<char>) -> Seq<
    (Seq<char>, Seq<char>),
> {
    seq![
        ("ASAN_OPTIONS"@, "detect_odr_violation=0:"@ + asan),
        ("TSAN_OPTIONS"@, "report_signal_unsafe=0:"@ + tsan),
    ]
}

/// Starting the engine against a freshly built target.
#[derive(Debug, Clone, PartialEq, Eq)]
pub struct RunPlan {
    /// Created, with its parents, before the engine starts.
    pub input_dir: String,
    /// The engine, which replaces the current process.
    pub engine: ProcessSpec,
}

fn push_launch_flags(arguments: &mut Vec<String>, launch: &HonggfuzzLaunchArgs)
    ensures
        views(final(arguments)@) == views(old(arguments)@) + launch_flags(*launch),
{
    let ghost start = views(arguments@);
    if let Some(timeout) = launch.timeout {
        push_arg(arguments, "-t");
        let s = decimal_string(timeout.as_secs());
        push_arg(arguments, s.as_str());
    }
    if let Some(n) = launch.n_iterations {
        push_arg(arguments, "-N");
        let s = decimal_string(n);
        push_arg(arguments, s.as_str());
    }
    if launch.quietly {
        push_arg(arguments, "--quietly");
    }
    if let Some(code) = launch.exit_upon_crash {
        push_arg(arguments, "--exit_upon_crash");
        push_arg(arguments, "--exit_code_upon_crash");
        let s = decimal_string(code as u64);
        push_arg(arguments, s.as_str());
    }
    assert(views(arguments@) =~= start + launch_flags(*launch));
}

/// The engine launch for `binary`: the corpus directory to create, and the
/// engine with its arguments and sanitizer options.
pub fn hongg_run(
    launch: HonggfuzzLaunchArgs,
    target_triple: &str,
    binary: &str,
    args: Vec<String>,
    input: &str,
    workspace: &str,
    target_dir: &str,
    env: &Environment,
) -> (r: RunPlan)
    ensures
        r.input_dir@ == default_input(workspace@, binary@),
        r.engine@.program == joined(target_dir@, "honggfuzz"@),
        r.engine@.args == engine_arguments(
            launch,
            target_triple@,
            binary@,
            views(args@),
            input@,
            workspace@,
            target_dir@,
            env.run_args@,
        ),
        r.engine@.env == sanitizer_environment(env.asan_options@, env.tsan_options@),
{
    let mut vars = Vec::new();
    let asan = concat_strings("detect_odr_violation=0:", env.asan_options.as_str());
    let tsan = concat_strings("report_signal_unsafe=0:", env.tsan_options.as_str());
    push_env(&mut vars, "ASAN_OPTIONS", asan.as_str());
    push_env(&mut vars, "TSAN_OPTIONS", tsan.as_str());

    let target_workspace = join(workspace, binary);
    let input_dir = join(target_workspace.as_str(), "input");
    let command = join(target_dir, "honggfuzz");

    let mut arguments: Vec<String> = Vec::new();
    push_arg(&mut arguments, "-W");
    push_arg(&mut arguments, target_workspace.as_str());
    push_arg(&mut arguments, "-f");
    push_arg(&mut arguments, input);
    push_arg(&mut arguments, "-P");
    append_args(&mut arguments, split_whitespace(env.run_args.as_str()));
    push_launch_flags(&mut arguments, &launch);
    push_arg(&mut arguments, "--");
    let triple_dir = join(target_dir, target_triple);
    let profile_dir = join(triple_dir.as_str(), "release");
    let release = join(profile_dir.as_str(), binary);
    push_arg(&mut arguments, release.as_str());
    append_args(&mut arguments, args);

    let r = RunPlan {
        input_dir,
        engine: ProcessSpec { program: command, args: arguments, env: vars },
    };
    assert(r.engine@.args =~= engine_arguments(
        launch,
        target_triple@,
        binary@,
        views(args@),
        input@,
        workspace@,
        target_dir@,
        env.run_args@,
    ));
    assert(r.engine@.env =~= sanitizer_environment(env.asan_options@, env.tsan_options@));
    r
}

/// With a timeout of `secs` and a cap of `count` iterations, the engine's
/// arguments begin with `-W <workspace>/<binary>`, `-f <input>` and `-P`;
/// after the user's engine flags come `-t <secs>` and then `-N <count>`;
/// they end with `--`, the release binary, and the target's own arguments.
pub proof fn lemma_engine_argument_order(
    launch: HonggfuzzLaunchArgs,
    target_triple: Seq<char>,
    binary: Seq<char>,
    target_args: Seq<Seq<char>>,
    input: Seq<char>,
    workspace: Seq<char>,
    target_dir: Seq<char>,
    env_run_args: Seq<char>,
    secs: u64,
    count: u64,
)
    requires
        launch.timeout == Some(TimeoutDuration { secs }),
        launch.n_iterations == Some(count),
    ensures
        ({
            let a = engine_arguments(
                launch,
                target_triple,
                binary,
                target_args,
                input,
                workspace,
                target_dir,
                env_run_args,
            );
            let p = 5 + words(env_run_args).len() as int;
            let q = a.len() as int - target_args.len() - 2;
            &&& a[0] == "-W"@
            &&& a[1] == joined(workspace, binary)
            &&& a[2] == "-f"@
            &&& a[3] == input
            &&& a[4] == "-P"@
            &&& a[p] == "-t"@
            &&& a[p + 1] == decimal(secs as nat)
            &&& a[p + 2] == "-N"@
            &&& a[p + 3] == decimal(count as nat)
            &&& p + 3 < q
            &&& a[q] == "--"@
            &&& a[q + 1] == artifact_path(target_dir, target_triple, "release"@, binary)
            &&& a.subrange(q + 2, a.len() as int) == target_args
        }),
{
    let a = engine_arguments(
        launch,
        target_triple,
        binary,
        target_args,
        input,
        workspace,
        target_dir,
        env_run_args,
    );
    let head = seq!["-W"@, joined(workspace, binary), "-f"@, input, "-P"@];
    let w = words(env_run_args);
    let f = launch_flags(launch);
    let tail = seq!["--"@, artifact_path(target_dir, target_triple, "release"@, binary)];
    assert(a == head + w + f + tail + target_args);
    let p = 5 + w.len() as int;
    assert(f[0] == "-t"@ && f[1] == decimal(secs as nat) && f[2] == "-N"@ && f[3] == decimal(
        count as nat,
    ));
    assert(f.len() >= 4);
    assert(a[p] == f[0]);
    assert(a[p + 1] == f[1]);
    assert(a[p + 2] == f[2]);
    assert(a[p + 3] == f[3]);
    let q = a.len() as int - target_args.len() - 2;
    assert(q == 5 + w.len() + f.len());
    assert(a[q] == tail[0]);
    assert(a[q + 1] == tail[1]);
    assert(a.subrange(q + 2, a.len() as int) =~= target_args);
}

} // verus!
