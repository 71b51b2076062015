//! How a line of the log reads.

use vstd::prelude::*;
use vstd::string::StringExecFns;
use crate::text::{chars_of, remove_char, replace_char, replaced, string_of, without};

verus! {

/// The first moment, in seconds since the epoch, of which no timestamp can
/// be written: the beginning of the year 10000.
pub const TIMESTAMP_LIMIT: u64 = 253_402_300_800;

/// The timestamp in the format of RFC 3339, in UTC and to the second, of the
/// moment `secs` seconds after the epoch, as `humantime` writes it.
pub uninterp spec fn rfc3339_seconds(secs: u64) -> Seq<char>;

/// Writes the timestamp of the moment `secs` seconds after the epoch.
///
/// Trusted: wraps `humantime::format_rfc3339_seconds`, whose text depends on
/// the moment alone: it is always in UTC and shows no fraction of a second.
/// The formatter fails from the year 10000 on, which `requires` leaves out.
/// The contract names the text.
#[verifier::external_body]
fn timestamp(secs: u64) -> (text: String)
    requires
        secs < TIMESTAMP_LIMIT,
    ensures
        text@ == rfc3339_seconds(secs),
{
    let moment = std::time::UNIX_EPOCH + std::time::Duration::from_secs(secs);
    humantime::format_rfc3339_seconds(moment).to_string()
}

/// The time as the log shows it: the timestamp with a blank between the
/// date and the time of day, and without the marker of the time zone.
pub open spec fn clock_text(timestamp: Seq<char>) -> Seq<char> {
    without(replaced(timestamp, 'T', ' '), 'Z')
}

/// The level as the log shows it: a level whose text takes thirteen bytes
/// gets a blank behind it, so that the messages line up.
pub open spec fn padded_level(level: &str) -> Seq<char> {
    if level.len() == 13 {
        level@ + " "@
    } else {
        level@
    }
}

/// A line of the log.
pub open spec fn log_line_text(timestamp: Seq<char>, level: &str, message: Seq<char>) -> Seq<char> {
    "[ "@ + clock_text(timestamp) + " "@ + padded_level(level) + " ] "@ + message
}

/// Writes a line of the log from a timestamp in the format of RFC 3339, the
/// level as it is shown, and the message.
pub fn log_line(timestamp: &str, level: &str, message: &str) -> (line: String)
    ensures
        line@ == log_line_text(timestamp@, level, message@),
{
    let stamp = chars_of(timestamp);
    let spaced = replace_char(&stamp, 'T', ' ');
    let clock = string_of(&remove_char(&spaced, 'Z'));
    let mut line = "[ ".to_owned();
    line.append(clock.as_str());
    line.append(" ");
    line.append(level);
    if level.len() == 13 {
        line.append(" ");
    }
    line.append(" ] ");
    line.append(message);
    proof {
        assert(line@ =~= "[ "@ + clock_text(timestamp@) + " "@ + padded_level(level) + " ] "@
            + message@);
    }
    line
}

/// Writes the line of the log for a message that was logged `secs` seconds
/// after the epoch; `None` from the year 10000 on, of which no timestamp
/// can be written.
pub fn log_line_at(secs: u64, level: &str, message: &str) -> (line: Option<String>)
    ensures
        match line {
            Some(text) => secs < TIMESTAMP_LIMIT && text@ == log_line_text(
                rfc3339_seconds(secs),
                level,
                message@,
            ),
            None => secs >= TIMESTAMP_LIMIT,
        },
{
    if secs < TIMESTAMP_LIMIT {
        let stamp = timestamp(secs);
        Some(log_line(stamp.as_str(), level, message))
    } else {
        None
    }
}

} // verus!
