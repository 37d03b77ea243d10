use vstd::prelude::*;

use crate::text::{join, joined, opt_view};

verus! {

/// What an absent version marker reads as.
pub const UNKNOWN_VERSION: &'static str = "unknown";

/// The library and the orchestration tool disagree on the version.
#[derive(Debug, Clone, PartialEq, Eq)]
pub struct VersionMismatch {
    /// The version of the library whose build step runs.
    pub library: String,
    /// The version that the tool passed on, or `unknown`.
    pub tool: String,
}

/// The marker as the build step reads it: an absent one is `unknown`.
pub open spec fn marker_value(marker: Option<Seq<char>>) -> Seq<char> {
    match marker {
        Some(m) => m,
        None => UNKNOWN_VERSION@,
    }
}

/// The handshake passes exactly when the two versions are equal.
pub open spec fn versions_agree(library: Seq<char>, tool: Seq<char>) -> bool {
    library == tool
}

/// Compares the library's version with the tool's: equal versions pass,
/// any other value fails.
pub fn check_version(library: &str, tool: &str) -> (r: Result<(), VersionMismatch>)
    ensures
        r is Ok <==> versions_agree(library@, tool@),
        r matches Err(e) ==> e.library@ == library@ && e.tool@ == tool@,
{
    let l = String::from_str(library);
    let t = String::from_str(tool);
    if l == t {
        Ok(())
    } else {
        Err(VersionMismatch { library: l, tool: t })
    }
}

/// Reads an optional marker, `unknown` where it is absent.
pub fn marker_or_unknown(marker: Option<String>) -> (r: String)
    ensures
        r@ == marker_value(opt_view(marker)),
{
    match marker {
        Some(m) => m,
        None => String::from_str(UNKNOWN_VERSION),
    }
}

/// What the native library's build step does.
#[derive(Debug, Clone, PartialEq, Eq)]
pub enum NativeBuild {
    /// Not a fuzzing build: nothing to build.
    Skip,
    /// Versions disagree: stop the build with a remediation message.
    Mismatch(VersionMismatch),
    /// Build the engine and place it in this directory.
    Build(String),
}

/// Whether a path starts at the filesystem root.
pub open spec fn is_absolute(p: Seq<char>) -> bool {
    p.len() > 0 && p[0] == '/'
}

/// The directory that receives the engine: the marker itself when absolute,
/// else resolved against the crate root.
pub open spec fn engine_dir(crate_root: Seq<char>, target: Seq<char>) -> Seq<char> {
    if is_absolute(target) {
        target
    } else {
        joined(crate_root, target)
    }
}

/// Decides the native build step from the target-directory marker and the
/// version marker: no target marker, no build; then versions must agree,
/// an absent version marker counting as `unknown`.
pub fn native_build_step(
    library: &str,
    target_marker: Option<String>,
    version_marker: Option<String>,
    crate_root: &str,
) -> (r: NativeBuild)
    ensures
        target_marker is None ==> r == NativeBuild::Skip,
        target_marker matches Some(t) ==> {
            let tool = marker_value(opt_view(version_marker));
            if versions_agree(library@, tool) {
                r matches NativeBuild::Build(d) && d@ == engine_dir(crate_root@, t@)
            } else {
                r matches NativeBuild::Mismatch(e) && e.library@ == library@ && e.tool@ == tool
            }
        },
{
    let target = match target_marker {
        Some(t) => t,
        None => {
            return NativeBuild::Skip;
        },
    };
    let tool = marker_or_unknown(version_marker);
    match check_version(library, tool.as_str()) {
        Err(e) => NativeBuild::Mismatch(e),
        Ok(()) => {
            let absolute = target.as_str().unicode_len() > 0 && target.as_str().get_char(0) == '/';
            if absolute {
                NativeBuild::Build(target)
            } else {
                NativeBuild::Build(join(crate_root, target.as_str()))
            }
        },
    }
}

/// The handshake: a version passes against itself, fails against an absent
/// marker unless it is itself `unknown`, and fails against every other value.
pub proof fn lemma_handshake(v: Seq<char>, w: Seq<char>)
    ensures
        versions_agree(v, marker_value(Some(v))),
        v != UNKNOWN_VERSION@ ==> !versions_agree(v, marker_value(None)),
        w != v ==> !versions_agree(v, marker_value(Some(w))),
{
}

} // verus!
