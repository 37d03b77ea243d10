use vstd::prelude::*;

verus! {

#[verifier::external_type_specification]
#[verifier::external_body]
pub struct ExRustcVersionError(rustc_version::Error);

/// The host platform that a compiler's verbose version output reports, if
/// the output parses.
pub uninterp spec fn reported_host(verbose_version: Seq<char>) -> Option<Seq<char>>;

/// Relies on `rustc_version::version_meta_for`: parses the output of
/// `rustc -vV`; its `host` field is the host platform.
#[verifier::external_body]
fn parse_host(verbose_version: &str) -> (r: Result<String, rustc_version::Error>)
    ensures
        match r {
            Ok(h) => reported_host(verbose_version@) == Some(h@),
            Err(_) => reported_host(verbose_version@) is None,
        },
{
    rustc_version::version_meta_for(verbose_version).map(|m| m.host)
}

/// The compiler's verbose version output could not be read.
#[derive(Debug, Clone, Copy, PartialEq, Eq, Structural)]
pub struct TripleError;

/// The target platform triple of the installed compiler, read from its
/// verbose version output.
pub fn target_triple(verbose_version: &str) -> (r: Result<String, TripleError>)
    ensures
        match reported_host(verbose_version@) {
            Some(h) => r matches Ok(t) && t@ == h,
            None => r is Err,
        },
{
    match parse_host(verbose_version) {
        Ok(h) => Ok(h),
        Err(_) => Err(TripleError),
    }
}

} // verus!
