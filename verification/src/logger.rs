//! The lines of the application's own log.

use vstd::prelude::*;
use vstd::string::*;

verus! {

/// The level at which the application logs: `debug` in a debug build,
/// otherwise what the variable `RUST_LOG` asks for, and `info` where it is
/// not set. `rust_log` is the variable's value as the host read it.
pub fn log_level(debug_build: bool, rust_log: Option<String>) -> (r: String)
    ensures
        r@ == if debug_build {
            "debug"@
        } else {
            match rust_log {
                Some(level) => level@,
                None => "info"@,
            }
        },
{
    if debug_build {
        String::from_str("debug")
    } else {
        match rust_log {
            Some(level) => level,
            None => String::from_str("info"),
        }
    }
}

/// A line of the log: the time in square brackets, the level, the target
/// in square brackets, the message.
pub open spec fn record_text(
    timestamp: Seq<char>,
    level: Seq<char>,
    target: Seq<char>,
    message: Seq<char>,
) -> Seq<char> {
    "["@ + timestamp + "] "@ + level + " ["@ + target + "] "@ + message
}

/// Writes a line of the log.
pub fn format_record(timestamp: &str, level: &str, target: &str, message: &str) -> (r: String)
    ensures
        r@ == record_text(timestamp@, level@, target@, message@),
{
    let mut s = String::from_str("[");
    s.append(timestamp);
    s.append("] ");
    s.append(level);
    s.append(" [");
    s.append(target);
    s.append("] ");
    s.append(message);
    s
}

/// Writes the line for an error that occurred before the log was set up:
/// an error of the target `init`.
pub fn format_init_error(timestamp: &str, error: &str) -> (r: String)
    ensures
        r@ == record_text(timestamp@, "ERROR"@, "init"@, error@),
{
    format_record(timestamp, "ERROR", "init", error)
}

} // verus!
