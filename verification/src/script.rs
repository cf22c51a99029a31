//! Where the scripts of a server installation are found on disk.
//!
//! Joining and resolving paths is the standard library's work, and goes by
//! the rules of the platform and by the directory the process runs in. Its
//! functions are called through the wrappers below, whose contracts are
//! believed, not proved: they claim what the documentation says of every
//! platform, and no more.

use vstd::prelude::*;
use crate::text::join3;

verus! {

/// What the program was started with.
#[derive(Debug, PartialEq, Eq)]
pub struct Args {
    /// The URL to connect to, scheme and any path prefix included.
    pub host: String,
    /// The directory of the server installation.
    pub vtt: String,
}

/// Makes `std::path::PathBuf` known as an opaque type: an owned path.
#[verifier::external_type_specification]
#[verifier::external_body]
pub struct ExPathBuf(std::path::PathBuf);

/// The path that `Path::join` makes of the paths `base` and `sub`, as text:
/// `sub` adjoined to `base` by the rules of the platform.
pub uninterp spec fn joined_path(base: Seq<char>, sub: Seq<char>) -> Seq<char>;

/// Whether a path is absolute, as `Path::is_absolute` tells: whether it is
/// independent of the directory the process runs in.
pub uninterp spec fn path_is_absolute(path: std::path::PathBuf) -> bool;

/// Calls `Path::join` on two paths given as text. A path joined from text is
/// text again, so it is handed back as text with nothing lost: the path
/// that [`joined_path`] names for the two.
#[verifier::external_body]
fn join_path(base: &str, sub: &str) -> (joined: String)
    ensures
        joined@ == joined_path(base@, sub@),
{
    std::path::Path::new(base).join(sub).to_string_lossy().into_owned()
}

/// Calls `std::path::absolute`. Which path comes back depends on the
/// directory the process runs in, and none does where that directory cannot
/// be had. What holds whatever comes back: it is absolute; and none comes
/// back for the empty path.
#[verifier::external_body]
fn absolute_path(path: &str) -> (absolute: Option<std::path::PathBuf>)
    ensures
        path@.len() == 0 ==> absolute is None,
        absolute matches Some(made) ==> path_is_absolute(made),
{
    std::path::absolute(path).ok()
}

/// The absolute path of `subpath` below the server installation: `subpath`
/// joined to the installation's directory, and made absolute from the
/// directory the process runs in.
///
/// There is none where the joined path is empty, nor where the platform
/// cannot tell the directory the process runs in.
pub fn vtt_path(args: &Args, subpath: &str) -> (path: Option<std::path::PathBuf>)
    ensures
        joined_path(args.vtt@, subpath@).len() == 0 ==> path is None,
        path matches Some(absolute) ==> path_is_absolute(absolute),
{
    let joined = join_path(args.vtt.as_str(), subpath);
    absolute_path(joined.as_str())
}

/// Where the script `subpath` of a server installation at `vtt` lies.
pub open spec fn script_location(vtt: Seq<char>, subpath: Seq<char>) -> Seq<char> {
    vtt + "/public/scripts/"@ + subpath
}

/// The path of the script `subpath` of the server installation.
pub fn vtt_module_path(args: &Args, subpath: &str) -> (path: String)
    ensures
        path@ == script_location(args.vtt@, subpath@),
{
    join3(args.vtt.as_str(), "/public/scripts/", subpath)
}

} // verus!
