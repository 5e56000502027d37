//! What the command line needs besides the report: where to look when no
//! path is given, and what to say and return when the repository does not
//! open.

use vstd::prelude::*;

verus! {

/// The path of the repository when the command line names none.
pub const DEFAULT_PATH: &'static str = ".";

/// The exit status of a run that could not open the repository.
pub const OPEN_FAILURE_STATUS: i32 = 1;

/// The path to open: the one given, or the current directory.
pub open spec fn path_or_default(path: Option<Seq<char>>) -> Seq<char> {
    match path {
        Some(given) => given,
        None => DEFAULT_PATH@,
    }
}

/// The message for a repository that did not open, given the reason.
pub open spec fn open_failure_text(reason: Seq<char>) -> Seq<char> {
    "Failed to open repository: "@ + reason
}

/// The path to open: the one given, or the current directory.
pub fn repository_path(path: Option<&str>) -> (out: String)
    ensures
        out@ == path_or_default(path.deep_view()),
{
    match path {
        Some(given) => String::from_str(given),
        None => String::from_str(DEFAULT_PATH),
    }
}

/// The message for a repository that did not open, given the reason.
pub fn open_failure_message(reason: &str) -> (out: String)
    ensures
        out@ == open_failure_text(reason@),
{
    let mut out = String::from_str("Failed to open repository: ");
    out.append(reason);
    out
}

} // verus!
