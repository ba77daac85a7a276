//! Log lines: a severity, a message, and the one-line text
//! `[<timestamp>] [<LEVEL>] <message>` that is written for them.

use crate::decimal::is_digit;
use vstd::prelude::*;
use vstd::string::*;

verus! {

/// How serious a log line is.
#[derive(Clone, Copy, Debug, PartialEq, Eq, Structural)]
pub enum Level {
    Info,
    Error,
}

impl Level {
    /// The word that stands for the level in a log line.
    pub open spec fn label_text(self) -> Seq<char> {
        match self {
            Level::Info => "INFO"@,
            Level::Error => "ERROR"@,
        }
    }

    /// The word that stands for the level in a log line: `INFO` or `ERROR`.
    pub fn label(self) -> (text: &'static str)
        ensures
            text@ == self.label_text(),
    {
        match self {
            Level::Info => "INFO",
            Level::Error => "ERROR",
        }
    }
}

/// What is to be logged: one line's severity and message.
#[derive(Clone, Debug, PartialEq, Eq)]
pub struct LogEntry {
    pub level: Level,
    pub message: String,
}

/// A log entry as a mathematical value.
pub struct LogRecord {
    pub level: Level,
    pub message: Seq<char>,
}

impl View for LogEntry {
    type V = LogRecord;

    open spec fn view(&self) -> LogRecord {
        LogRecord { level: self.level, message: self.message@ }
    }
}

impl LogEntry {
    /// An entry of severity `INFO`.
    pub fn info(message: &str) -> (entry: LogEntry)
        ensures
            entry@ == (LogRecord { level: Level::Info, message: message@ }),
    {
        LogEntry { level: Level::Info, message: String::from_str(message) }
    }

    /// An entry of severity `ERROR`.
    pub fn error(message: &str) -> (entry: LogEntry)
        ensures
            entry@ == (LogRecord { level: Level::Error, message: message@ }),
    {
        LogEntry { level: Level::Error, message: String::from_str(message) }
    }
}

/// The format in which the time of a log line is written.
pub const TIMESTAMP_FORMAT: &'static str = "%Y-%m-%d %H:%M:%S";

/// The shape `-MM-DD HH:MM:SS`, each letter a digit.
pub open spec fn is_date_time_tail(t: Seq<char>) -> bool {
    &&& t.len() == 15
    &&& t[0] == '-' && is_digit(t[1]) && is_digit(t[2])
    &&& t[3] == '-' && is_digit(t[4]) && is_digit(t[5])
    &&& t[6] == ' ' && is_digit(t[7]) && is_digit(t[8])
    &&& t[9] == ':' && is_digit(t[10]) && is_digit(t[11])
    &&& t[12] == ':' && is_digit(t[13]) && is_digit(t[14])
}

/// The shape of a timestamp, `YYYY-MM-DD HH:MM:SS`: a year of at least four
/// characters, then month, day, hour, minute and second in two digits each.
pub open spec fn is_timestamp(text: Seq<char>) -> bool {
    &&& text.len() >= 19
    &&& is_date_time_tail(text.subrange(text.len() - 15, text.len() as int))
}

/// The text of a log line: `[<timestamp>] [<LEVEL>] <message>`.
pub open spec fn line_text(timestamp: Seq<char>, record: LogRecord) -> Seq<char> {
    "["@ + timestamp + "] ["@ + record.level.label_text() + "] "@ + record.message
}

/// Writes the line for an entry made at the time that `timestamp` gives.
pub fn format_line(timestamp: &str, entry: &LogEntry) -> (line: String)
    ensures
        line@ == line_text(timestamp@, entry@),
{
    let mut line = String::from_str("[");
    line.append(timestamp);
    line.append("] [");
    line.append(entry.level.label());
    line.append("] ");
    line.append(entry.message.as_str());
    line
}

/// The machine's local time at this moment, written in the given format.
///
/// Calls `chrono::Local::now()`, then `format` and `to_string` on what it
/// returns. The text depends on the clock and on the time zone, so the
/// contract claims only the shape that chrono documents for the specifiers
/// `%Y`, `%m`, `%d`, `%H`, `%M` and `%S`: the year padded with zeros to four
/// digits (with a sign before it only outside the years 0 to 9999), the other
/// fields padded to two. chrono panics when the system clock stands before
/// 1970.
#[verifier::external_body]
fn local_time_text(format: &str) -> (text: String)
    requires
        format@ == TIMESTAMP_FORMAT@,
    ensures
        is_timestamp(text@),
{
    chrono::Local::now().format(format).to_string()
}

/// Writes the line for an entry made now, by the machine's local time.
pub fn log_line(entry: &LogEntry) -> (line: String)
    ensures
        exists|timestamp: Seq<char>|
            is_timestamp(timestamp) && line@ == #[trigger] line_text(timestamp, entry@),
{
    let timestamp = local_time_text(TIMESTAMP_FORMAT);
    format_line(timestamp.as_str(), entry)
}

} // verus!
