use vstd::prelude::*;

use colored::Colorize;

use crate::errors::LoggerError;
use crate::log_line::{file_view, format_log_line, log_line};

verus! {

/// The terminal code that turns the foreground red.
pub open spec fn red_code() -> Seq<char> {
    "\x1B[31m"@
}

/// The terminal code that resets all colours and styles.
pub open spec fn reset_code() -> Seq<char> {
    "\x1B[0m"@
}

/// Whether `text` holds the reset code somewhere.
pub open spec fn has_reset(text: Seq<char>) -> bool {
    exists|i: int| 0 <= i && i + 4 <= text.len() && #[trigger] text.subrange(i, i + 4) == reset_code()
}

/// What painting `text` red may give: the text unchanged (colours are off),
/// or the text between the red code and the reset code. A text that holds
/// reset codes itself is still framed by the two codes, and grows by more
/// than their length.
pub open spec fn red_outcome(text: Seq<char>, r: Seq<char>) -> bool {
    ||| r == text
    ||| !has_reset(text) && r == red_code() + text + reset_code()
    ||| has_reset(text) && r.len() > text.len() + 9 && r.take(5) == red_code() && r.skip(
        r.len() - 4,
    ) == reset_code()
}

/// `colored`'s `red`, rendered to a string. Whether colour codes are added
/// depends on the environment (variables and whether output is a terminal),
/// so the contract states what holds of either outcome.
#[verifier::external_body]
pub fn paint_red(text: &str) -> (r: String)
    ensures
        red_outcome(text@, r@),
{
    text.red().to_string()
}

/// Whether `c` is a decimal digit.
pub open spec fn is_digit(c: char) -> bool {
    '0' <= c && c <= '9'
}

/// The year part of a timestamp: four digits for the years 0 to 9999,
/// otherwise a sign followed by at least four digits.
pub open spec fn year_shape(y: Seq<char>) -> bool {
    ||| y.len() == 4 && forall|i: int| 0 <= i < 4 ==> is_digit(#[trigger] y[i])
    ||| y.len() >= 5 && (y[0] == '+' || y[0] == '-') && forall|i: int|
        1 <= i < y.len() ==> is_digit(#[trigger] y[i])
}

/// The shape of `%Y-%m-%d %H:%M:%S%.3f`: the year, then the nineteen
/// characters `-MM-DD HH:MM:SS.mmm` with two-digit fields and three
/// millisecond digits.
pub open spec fn timestamp_shape(t: Seq<char>) -> bool {
    let n = t.len() as int;
    &&& n >= 23
    &&& year_shape(t.take(n - 19))
    &&& t[n - 19] == '-' && t[n - 16] == '-' && t[n - 13] == ' '
    &&& t[n - 10] == ':' && t[n - 7] == ':' && t[n - 4] == '.'
    &&& is_digit(t[n - 18]) && is_digit(t[n - 17])
    &&& is_digit(t[n - 15]) && is_digit(t[n - 14])
    &&& is_digit(t[n - 12]) && is_digit(t[n - 11])
    &&& is_digit(t[n - 9]) && is_digit(t[n - 8])
    &&& is_digit(t[n - 6]) && is_digit(t[n - 5])
    &&& is_digit(t[n - 3]) && is_digit(t[n - 2]) && is_digit(t[n - 1])
}

/// `chrono`'s local clock, rendered as `%Y-%m-%d %H:%M:%S%.3f`. The time is
/// read from the machine, so only the shape of the text is stated, not which
/// moment it shows.
#[verifier::external_body]
pub fn local_timestamp() -> (r: String)
    ensures
        timestamp_shape(r@),
{
    chrono::Local::now().format("%Y-%m-%d %H:%M:%S%.3f").to_string()
}

/// The message of a failure to create the log directory.
pub open spec fn directory_failure_text(dir: Seq<char>, reason: Seq<char>) -> Seq<char> {
    "Failed to create "@ + dir + " directory: "@ + reason
}

/// The message of a failure to create the log file.
pub open spec fn file_failure_text(file: Seq<char>, reason: Seq<char>) -> Seq<char> {
    "Failed to create "@ + file + ": "@ + reason
}

/// The message of a failure to install the logger.
pub open spec fn set_logger_failure_text(reason: Seq<char>) -> Seq<char> {
    "Failed set logger: "@ + reason
}

/// The error for a log directory that could not be created, painted red.
pub fn directory_failure(dir: &str, reason: &str) -> (e: LoggerError)
    ensures
        red_outcome(directory_failure_text(dir@, reason@), e.0@),
{
    let mut message = String::from_str("Failed to create ");
    message.append(dir);
    message.append(" directory: ");
    message.append(reason);
    LoggerError(paint_red(message.as_str()))
}

/// The error for a log file that could not be created, painted red.
pub fn file_failure(file: &str, reason: &str) -> (e: LoggerError)
    ensures
        red_outcome(file_failure_text(file@, reason@), e.0@),
{
    let mut message = String::from_str("Failed to create ");
    message.append(file);
    message.append(": ");
    message.append(reason);
    LoggerError(paint_red(message.as_str()))
}

/// The error for a logger that could not be installed, painted red.
pub fn set_logger_failure(reason: &str) -> (e: LoggerError)
    ensures
        red_outcome(set_logger_failure_text(reason@), e.0@),
{
    let mut message = String::from_str("Failed set logger: ");
    message.append(reason);
    LoggerError(paint_red(message.as_str()))
}

/// One log line stamped with the local time.
pub fn log_line_now(
    level: &str,
    target: &str,
    file: Option<&str>,
    line: Option<u32>,
    message: &str,
) -> (r: String)
    ensures
        exists|t: Seq<char>|
            timestamp_shape(t) && r@ == #[trigger] log_line(
                t,
                level@,
                target@,
                file_view(file),
                line,
                message@,
            ),
{
    let timestamp = local_timestamp();
    let r = format_log_line(timestamp.as_str(), level, target, file, line, message);
    assert(timestamp_shape(timestamp@));
    r
}

} // verus!
