use vstd::prelude::*;

use crate::flags::HostSupport;
use crate::text::views;

verus! {

/// One environment variable handed to a child process.
#[derive(Debug, Clone, PartialEq, Eq)]
pub struct EnvVar {
    pub name: String,
    pub value: String,
}

/// The name and value of each variable, in order.
pub open spec fn env_pairs(e: Seq<EnvVar>) -> Seq<(Seq<char>, Seq<char>)> {
    e.map_values(|v: EnvVar| (v.name@, v.value@))
}

/// A program to start: its path, its arguments and the variables set for it
/// on top of the inherited environment.
#[derive(Debug, Clone, PartialEq, Eq)]
pub struct ProcessSpec {
    pub program: String,
    pub args: Vec<String>,
    pub env: Vec<EnvVar>,
}

/// The abstract value of a [`ProcessSpec`].
pub struct ProcV {
    pub program: Seq<char>,
    pub args: Seq<Seq<char>>,
    pub env: Seq<(Seq<char>, Seq<char>)>,
}

impl View for ProcessSpec {
    type V = ProcV;

    open spec fn view(&self) -> ProcV {
        ProcV { program: self.program@, args: views(self.args@), env: env_pairs(self.env@) }
    }
}

/// What the orchestration reads from the process environment and the host
/// before it decides anything.
#[derive(Debug, Clone, PartialEq, Eq)]
pub struct Environment {
    /// The build tool to run.
    pub cargo: String,
    /// What the compiling host offers.
    pub support: HostSupport,
    /// The orchestration tool's own version.
    pub tool_version: String,
    /// Extra build-tool arguments, split at whitespace.
    pub build_args: String,
    /// Extra engine arguments, split at whitespace.
    pub run_args: String,
    /// The address sanitizer's options as inherited.
    pub asan_options: String,
    /// The thread sanitizer's options as inherited.
    pub tsan_options: String,
    /// The backtrace toggle as inherited, if set.
    pub rust_backtrace: Option<String>,
}

pub fn env_var(name: &str, value: &str) -> (r: EnvVar)
    ensures
        r.name@ == name@,
        r.value@ == value@,
{
    EnvVar { name: String::from_str(name), value: String::from_str(value) }
}

/// Appends one argument.
pub fn push_arg(v: &mut Vec<String>, s: &str)
    ensures
        views(final(v)@) == views(old(v)@).push(s@),
{
    let ghost before = v@;
    v.push(String::from_str(s));
    assert(views(v@) =~= views(before).push(s@));
}

/// Appends all of `w`, in order.
pub fn append_args(v: &mut Vec<String>, w: Vec<String>)
    ensures
        views(final(v)@) == views(old(v)@) + views(w@),
{
    let ghost before = v@;
    let mut w = w;
    let ghost tail = w@;
    v.append(&mut w);
    assert(views(v@) =~= views(before) + views(tail));
}

/// Appends one variable.
pub fn push_env(v: &mut Vec<EnvVar>, name: &str, value: &str)
    ensures
        env_pairs(final(v)@) == env_pairs(old(v)@).push((name@, value@)),
{
    let ghost before = v@;
    v.push(env_var(name, value));
    assert(env_pairs(v@) =~= env_pairs(before).push((name@, value@)));
}

} // verus!
