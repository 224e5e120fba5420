//! Command-line tokenization. A profile's command string is split into an
//! executable name and literal arguments with POSIX shell-word semantics —
//! quotes and backslash escapes are honoured, but no shell ever runs, so the
//! command string cannot inject through expansion or operators.
use vstd::prelude::*;

verus! {

/// What POSIX shell-word splitting yields for a command line: its token list,
/// or nothing when the quoting is malformed (an unmatched quote).
pub uninterp spec fn shell_split(s: Seq<char>) -> Option<Seq<Seq<char>>>;

/// Relies on `shell_words::split`: POSIX shell-word splitting, a pure
/// function of the input characters alone, which errs exactly when the input
/// holds an unmatched quote.
#[verifier::external_body]
pub(crate) fn split_command_line(s: &str) -> (r: Option<Vec<String>>)
    ensures
        r is Some <==> shell_split(s@) is Some,
        r matches Some(v) ==> shell_split(s@) == Some(v.deep_view()),
{
    shell_words::split(s).ok()
}

} // verus!
