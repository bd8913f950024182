//! The log file as the controller reads it back: plain lines.

use vstd::prelude::*;
use vstd::string::*;

use crate::state::texts;

verus! {

/// The place of the first line feed in `text`, or the length of `text` if
/// it holds none.
pub open spec fn first_line_feed(text: Seq<char>) -> nat
    decreases text.len(),
{
    if text.len() == 0 || text[0] == '\n' {
        0
    } else {
        1 + first_line_feed(text.drop_first())
    }
}

/// A line without the carriage return that ended it, if one did.
pub open spec fn without_return(line: Seq<char>) -> Seq<char> {
    if line.len() > 0 && line.last() == '\r' {
        line.drop_last()
    } else {
        line
    }
}

/// The lines of a text. A line ends with a line feed, or with a carriage
/// return and a line feed; neither belongs to the line. What stands behind
/// the last line feed is a line too, as it is, unless it is empty.
pub open spec fn lines_of(text: Seq<char>) -> Seq<Seq<char>>
    decreases text.len(),
{
    if text.len() == 0 {
        Seq::empty()
    } else {
        let end = first_line_feed(text) as int;
        if end >= text.len() {
            seq![text]
        } else {
            seq![without_return(text.take(end))] + lines_of(text.skip(end + 1))
        }
    }
}

/// Splits a text into its lines with `str::lines`, which cuts at every line
/// feed, drops a carriage return just before it, and yields what follows
/// the last line feed unless that is empty.
#[verifier::external_body]
pub(crate) fn split_lines(text: &str) -> (lines: Vec<String>)
    ensures
        texts(lines@) == lines_of(text@),
{
    text.lines().map(String::from).collect()
}

/// What reading the log file gave.
#[derive(Debug)]
pub enum LogRead {
    /// The host has no place for a log file.
    NoPath,
    /// The file could not be read, for this reason.
    Failed(String),
    /// The file's contents.
    Contents(String),
}

/// The outcome of a log load as the controller takes it: the lines of the
/// file, or why there are none.
pub fn logs_loaded(read: LogRead) -> (outcome: Result<Vec<String>, String>)
    ensures
        match read {
            LogRead::NoPath => outcome is Err && outcome->Err_0@ == "Log path not found."@,
            LogRead::Failed(reason) => outcome is Err && outcome->Err_0@
                == "Failed to read log file: "@ + reason@,
            LogRead::Contents(text) => outcome is Ok && texts(outcome->Ok_0@) == lines_of(text@),
        },
{
    match read {
        LogRead::NoPath => Err("Log path not found.".to_string()),
        LogRead::Failed(reason) => {
            let mut text = String::from_str("Failed to read log file: ");
            text.append(reason.as_str());
            Err(text)
        },
        LogRead::Contents(text) => Ok(split_lines(text.as_str())),
    }
}

} // verus!
