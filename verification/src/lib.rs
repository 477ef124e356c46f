//! Verified core of a small line-oriented message-distribution service.
//!
//! Connected clients exchange newline-terminated text lines.  A broadcast
//! session relays each client's lines to every other client, a watch topic
//! pushes announcements into every session, a shared cancellation signal
//! shuts all sessions down, and a collector actor aggregates lines per
//! sender and renders snapshot reports.  The asynchronous plumbing (sockets,
//! channel receives) lives outside this crate; every decision the service
//! makes - line classification, message formatting, self-filtering,
//! aggregation, report rendering - is verified here.

use vstd::prelude::*;
use vstd::string::StringExecFns;

pub mod bus;
pub mod channels;
pub mod collector;
pub mod session;
pub mod signal;
pub mod topic;

verus! {

/// Relies on String::push from std: appends the given character to the end
/// of the string.
pub assume_specification[ String::push ](s: &mut String, ch: char)
    ensures
        final(s)@ == old(s)@.push(ch),
;

/// The reserved line that ends the sender's own session.
///
/// A line matches with no terminator, a bare newline, or a
/// carriage-return-newline pair.
pub open spec fn is_quit_line(s: Seq<char>) -> bool {
    s == "quit"@ || s == "quit\n"@ || s == "quit\r\n"@
}

/// Is it a quit message?
/// If the `line` is `"quit"` or `"quit\n"` or `"quit\r\n"`, return `true`.
pub fn is_quit(line: &str) -> (r: bool)
    ensures
        r == is_quit_line(line@),
{
    let l = line.to_owned();
    l == String::from_str("quit") || l == String::from_str("quit\n") || l == String::from_str(
        "quit\r\n",
    )
}

} // verus!
