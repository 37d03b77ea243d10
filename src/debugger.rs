use vstd::prelude::*;

use crate::engine::artifact_path;
use crate::process::{push_arg, ProcessSpec};
use crate::text::{contains, contains_str, join, opt_view};

verus! {

/// The final component of a path, as `std::path::Path::file_name` gives it.
pub uninterp spec fn path_file_name(p: Seq<char>) -> Option<Seq<char>>;

/// Relies on `std::path::Path::file_name`: the final component of the path,
/// if there is one. The path is text, so reading the component back as text
/// loses nothing.
#[verifier::external_body]
fn file_name(path: &str) -> (r: Option<String>)
    ensures
        opt_view(r) == path_file_name(path@),
{
    std::path::Path::new(path).file_name().map(|f| f.to_string_lossy().into_owned())
}

/// A debugger of the lldb family, whose command line differs from gdb's.
pub open spec fn lldb_family(name: Option<Seq<char>>) -> bool {
    match name {
        Some(f) => contains(f, "lldb"@),
        None => false,
    }
}

/// The debugger's own arguments: break on the panic entry point, run, print
/// a backtrace, with the target binary in the family's syntax.
pub open spec fn debugger_arguments(lldb: bool, target: Seq<char>) -> Seq<Seq<char>> {
    if lldb {
        seq!["-o"@, "b rust_panic"@, "-o"@, "r"@, "-o"@, "bt"@, "-f"@, target, "--"@]
    } else {
        seq!["-ex"@, "b rust_panic"@, "-ex"@, "r"@, "-ex"@, "bt"@, "--args"@, target]
    }
}

/// Whether a debugger's file name marks the lldb family.
pub fn is_lldb(name: &Option<String>) -> (r: bool)
    ensures
        r == lldb_family(opt_view(*name)),
{
    match name {
        Some(f) => contains_str(f.as_str(), "lldb"),
        None => false,
    }
}

/// The debugger, loaded with the debug build of `binary`.
pub fn debugger_command(binary: &str, target_dir: &str, target_triple: &str, debugger: &str) -> (r:
    ProcessSpec)
    ensures
        r@.program == debugger@,
        r@.args == debugger_arguments(
            lldb_family(path_file_name(debugger@)),
            artifact_path(target_dir@, target_triple@, "debug"@, binary@),
        ),
        r@.env.len() == 0,
{
    let triple_dir = join(target_dir, target_triple);
    let profile_dir = join(triple_dir.as_str(), "debug");
    let dest = join(profile_dir.as_str(), binary);
    let lldb = is_lldb(&file_name(debugger));
    let mut args: Vec<String> = Vec::new();
    if lldb {
        push_arg(&mut args, "-o");
        push_arg(&mut args, "b rust_panic");
        push_arg(&mut args, "-o");
        push_arg(&mut args, "r");
        push_arg(&mut args, "-o");
        push_arg(&mut args, "bt");
        push_arg(&mut args, "-f");
        push_arg(&mut args, dest.as_str());
        push_arg(&mut args, "--");
    } else {
        push_arg(&mut args, "-ex");
        push_arg(&mut args, "b rust_panic");
        push_arg(&mut args, "-ex");
        push_arg(&mut args, "r");
        push_arg(&mut args, "-ex");
        push_arg(&mut args, "bt");
        push_arg(&mut args, "--args");
        push_arg(&mut args, dest.as_str());
    }
    let r = ProcessSpec { program: String::from_str(debugger), args, env: Vec::new() };
    assert(r@.args =~= debugger_arguments(lldb, dest@));
    r
}

} // verus!
