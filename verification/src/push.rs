//! What became of one heartbeat request, and the log entry that reports it.

use crate::decimal::{decimal_text, to_decimal};
use crate::logging::{Level, LogEntry, LogRecord};
use vstd::prelude::*;
use vstd::string::*;

verus! {

/// How one heartbeat request ended.
#[derive(Clone, Debug, PartialEq, Eq)]
pub enum PushOutcome {
    /// The endpoint answered, with this status code.
    Response(u16),
    /// No answer came: the request failed on the way (name lookup, connection,
    /// timeout, TLS). The text describes the failure.
    Failed(String),
}

/// A push outcome as a mathematical value.
pub enum PushResult {
    Response(u16),
    Failed(Seq<char>),
}

impl View for PushOutcome {
    type V = PushResult;

    open spec fn view(&self) -> PushResult {
        match self {
            PushOutcome::Response(code) => PushResult::Response(*code),
            PushOutcome::Failed(description) => PushResult::Failed(description@),
        }
    }
}

/// True for the status codes that mean success: 200 to 299.
pub open spec fn is_success_code(code: u16) -> bool {
    200 <= code <= 299
}

/// True for the status codes that mean success: 200 to 299.
pub fn is_success(code: u16) -> (success: bool)
    ensures
        success == is_success_code(code),
{
    200 <= code && code <= 299
}

/// True for the status codes that HTTP knows: 100 to 999.
pub open spec fn is_status_code(code: u16) -> bool {
    100 <= code <= 999
}

/// The text that `reqwest::StatusCode` writes for a status code from 100 to
/// 999: the number and the reason phrase that belongs to it, as in
/// `404 Not Found`.
pub uninterp spec fn status_display(code: u16) -> Seq<char>;

/// The text of a status code, number and reason phrase; `None` for a number
/// that is no status code.
///
/// Calls `reqwest::StatusCode::from_u16` (the type is the `http` crate's, which
/// reqwest hands on), which accepts the codes 100 to 999 and no others, and
/// then `to_string`, which writes the number in decimal, a blank, and the
/// reason phrase that the crate's table holds for the number (or a
/// placeholder where it holds none). The contract gives the text a name and
/// claims of it, beside that, only that it begins with the number and the
/// blank.
#[verifier::external_body]
fn status_text(code: u16) -> (text: Option<String>)
    ensures
        match text {
            Some(t) => {
                &&& is_status_code(code)
                &&& t@ == status_display(code)
                &&& (decimal_text(code as nat) + " "@).is_prefix_of(t@)
            },
            None => !is_status_code(code),
        },
{
    match reqwest::StatusCode::from_u16(code) {
        Ok(status) => Some(status.to_string()),
        Err(_) => None,
    }
}

/// How a status code is named in a log line: number and reason phrase for a
/// code that HTTP knows, the bare number for any other.
pub open spec fn status_phrase(code: u16) -> Seq<char> {
    if is_status_code(code) {
        status_display(code)
    } else {
        decimal_text(code as nat)
    }
}

/// The entry for a request that the endpoint answered with success.
pub open spec fn success_record() -> LogRecord {
    LogRecord { level: Level::Info, message: "Heartbeat sent successfully."@ }
}

/// The entry for a request that the endpoint answered with another status,
/// named by `status`.
pub open spec fn rejected_record(status: Seq<char>) -> LogRecord {
    LogRecord { level: Level::Error, message: "Received non-2xx status code: "@ + status }
}

/// The entry for a request that got no answer.
pub open spec fn failed_record(description: Seq<char>) -> LogRecord {
    LogRecord { level: Level::Error, message: "Failed to send heartbeat: "@ + description }
}

/// The entry that reports an outcome.
pub open spec fn report_record(outcome: PushResult) -> LogRecord {
    match outcome {
        PushResult::Response(code) => if is_success_code(code) {
            success_record()
        } else {
            rejected_record(status_phrase(code))
        },
        PushResult::Failed(description) => failed_record(description),
    }
}

/// The entry for a request that the endpoint answered with success.
pub fn success_entry() -> (entry: LogEntry)
    ensures
        entry@ == success_record(),
{
    LogEntry::info("Heartbeat sent successfully.")
}

/// The entry for a request that the endpoint answered with a status outside
/// 200 to 299; `status` names the status.
pub fn rejected_entry(status: &str) -> (entry: LogEntry)
    ensures
        entry@ == rejected_record(status@),
{
    let mut message = String::from_str("Received non-2xx status code: ");
    message.append(status);
    LogEntry { level: Level::Error, message }
}

/// The entry for a request that got no answer; `description` says why.
pub fn failed_entry(description: &str) -> (entry: LogEntry)
    ensures
        entry@ == failed_record(description@),
{
    let mut message = String::from_str("Failed to send heartbeat: ");
    message.append(description);
    LogEntry { level: Level::Error, message }
}

/// True when a message for a status outside 200 to 299 names the status code
/// in decimal, directly after its opening words.
pub open spec fn names_status(message: Seq<char>, code: u16) -> bool {
    ("Received non-2xx status code: "@ + decimal_text(code as nat)).is_prefix_of(message)
}

/// A text that begins with `number` still does so after `words` are put
/// before both.
proof fn lemma_prefix_after_words(words: Seq<char>, number: Seq<char>, text: Seq<char>)
    requires
        number.is_prefix_of(text) || (number + " "@).is_prefix_of(text),
    ensures
        (words + number).is_prefix_of(words + text),
{
    assert(number =~= text.subrange(0, number.len() as int));
}

/// The entry that reports an outcome: one line for every outcome, `INFO` for a
/// status from 200 to 299 and `ERROR` for every other status and for a
/// request that failed. The line for another status names the status code in
/// decimal.
pub fn report(outcome: &PushOutcome) -> (entry: LogEntry)
    ensures
        entry@ == report_record(outcome@),
        outcome@ matches PushResult::Response(code) ==> (!is_success_code(code) ==> names_status(
            entry@.message,
            code,
        )),
{
    match outcome {
        PushOutcome::Response(code) => {
            if is_success(*code) {
                success_entry()
            } else {
                let status = match status_text(*code) {
                    Some(text) => text,
                    None => to_decimal(*code as u64),
                };
                let entry = rejected_entry(status.as_str());
                proof {
                    lemma_prefix_after_words(
                        "Received non-2xx status code: "@,
                        decimal_text(*code as nat),
                        status@,
                    );
                }
                entry
            }
        },
        PushOutcome::Failed(description) => failed_entry(description.as_str()),
    }
}

/// Every status from 200 to 299 is reported by the same single line, of
/// severity `INFO`, that says `Heartbeat sent successfully.`
pub proof fn lemma_success_is_reported_as_info(code: u16)
    requires
        is_success_code(code),
    ensures
        report_record(PushResult::Response(code)) == (LogRecord {
            level: Level::Info,
            message: "Heartbeat sent successfully."@,
        }),
{
}

/// Every other outcome, a status outside 200 to 299 or a request that got no
/// answer, is reported with severity `ERROR`. The line of a failed request
/// ends with its description, the line of a status with the status's name.
pub proof fn lemma_failure_is_reported_as_error(outcome: PushResult)
    requires
        !(outcome matches PushResult::Response(code) && is_success_code(code)),
    ensures
        report_record(outcome).level == Level::Error,
        outcome matches PushResult::Failed(description) ==> report_record(outcome).message
            == "Failed to send heartbeat: "@ + description,
        outcome matches PushResult::Response(code) ==> report_record(outcome).message
            == "Received non-2xx status code: "@ + status_phrase(code),
{
}

} // verus!
