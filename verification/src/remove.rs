//! Reporting how the removal of a package went.
//!
//! Removing is left to the package manager; see
//! [`removal_command`](crate::invocation::removal_command) for how it is
//! started. Only its exit status is looked at.

use vstd::prelude::*;
use crate::message::{join3, on_stderr, on_stdout, Message, MessageView};

verus! {

/// The line that reports a removal.
pub open spec fn removed_line(pkg: Seq<char>) -> Seq<char> {
    "Package `"@ + pkg + "` removed successfully!"@
}

/// The line that reports a failed removal.
pub open spec fn not_removed_line(pkg: Seq<char>) -> Seq<char> {
    "Failed to remove package `"@ + pkg + "`"@
}

/// The line that reports a removal: good news on standard output, bad news
/// on standard error.
pub open spec fn removal_report(pkg: Seq<char>, success: bool) -> MessageView {
    if success {
        on_stdout(removed_line(pkg))
    } else {
        on_stderr(not_removed_line(pkg))
    }
}

/// Words the report of the removal of `pkg`, given whether the package
/// manager exited successfully.
pub fn removal_notice(pkg: &str, success: bool) -> (m: Message)
    ensures
        m@ == removal_report(pkg@, success),
{
    if success {
        Message::stdout(join3("Package `", pkg, "` removed successfully!"))
    } else {
        Message::stderr(join3("Failed to remove package `", pkg, "`"))
    }
}

} // verus!
