//! Lines of the log: a time stamp in square brackets, then the message.

use vstd::prelude::*;
use vstd::string::*;

verus! {

/// The file that the daemon appends its log to.
pub const LOG_FILE: &'static str = "/var/log/hayaku-ike.log";

/// The layout of a time stamp, in the notation of `strftime`: the date, a
/// blank, the time of day to the second.
pub const TIMESTAMP_LAYOUT: &'static str = "%Y-%m-%d %H:%M:%S";

/// A line of the log, line feed included.
pub open spec fn log_line(timestamp: Seq<char>, message: Seq<char>) -> Seq<char> {
    "["@ + timestamp + "] "@ + message + "\n"@
}

/// Writes the line that logs `message` at the time that `timestamp` tells.
/// The caller reads the clock, renders it in [`TIMESTAMP_LAYOUT`], and
/// appends the line to [`LOG_FILE`].
pub fn log(timestamp: &str, message: &str) -> (line: String)
    ensures
        line@ == log_line(timestamp@, message@),
{
    let mut line = String::from_str("[");
    line.append(timestamp);
    line.append("] ");
    line.append(message);
    line.append("\n");
    line
}

} // verus!
