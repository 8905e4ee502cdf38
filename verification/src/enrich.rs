//! Raw input lines on their way into the pipeline.
//!
//! A raw line is stamped with the wall-clock time it arrived and kept
//! verbatim as a [`LogMessage`]. Lines shaped like JSON objects are
//! destined for a decoding path that does not exist yet, so the router
//! excludes them.

use vstd::prelude::*;
use crate::types::RedeyeResult;

verus! {

use vstd::string::StrSliceExecFns;

/// Placeholder for enrichment passes over parsed messages.
pub struct Enricher {}

/// A line looks like a JSON object when it opens with `{` and closes
/// with `}`.
pub open spec fn is_json_shaped(s: Seq<char>) -> bool {
    s.len() >= 1 && s[0] == '{' && s[s.len() - 1] == '}'
}

/// Relies on std::time::SystemTime::now, measured from the Unix epoch:
/// the wall-clock time of the call in milliseconds, or 0 if the clock
/// reads before the epoch.
#[verifier::external_body]
fn now_epoch_millis() -> u64 {
    match std::time::SystemTime::now().duration_since(std::time::UNIX_EPOCH) {
        Ok(d) => d.as_millis() as u64,
        Err(_) => 0,
    }
}

/// A raw input line together with the time it was taken in.
#[derive(Debug, Clone)]
pub struct LogMessage {
    time_millis: u64,
    line: String,
}

impl LogMessage {
    /// The line itself, verbatim.
    pub closed spec fn line_text(self) -> Seq<char> {
        self.line@
    }

    /// When the line was taken in, in milliseconds since the Unix
    /// epoch.
    pub closed spec fn time(self) -> u64 {
        self.time_millis
    }

    fn new(line: String, time_millis: u64) -> (r: Self)
        ensures
            r.line_text() == line@,
            r.time() == time_millis,
    {
        LogMessage { time_millis, line }
    }

    /// The stored line, verbatim.
    pub fn line(&self) -> (r: &String)
        ensures
            r@ == self.line_text(),
    {
        &self.line
    }

    /// When the line was taken in, in milliseconds since the Unix
    /// epoch.
    pub fn time_millis(&self) -> (r: u64)
        ensures
            r == self.time(),
    {
        self.time_millis
    }
}

/// Router that turns raw lines into timestamped messages.
pub struct LineParser;

impl LineParser {
    fn from_plain_text(line: String) -> (r: RedeyeResult<LogMessage>)
        ensures
            r matches Ok(m) && m.line_text() == line@,
    {
        Ok(LogMessage::new(line, now_epoch_millis()))
    }

    /// Whether a raw line would take the JSON decoding path; callers
    /// use this to keep such lines away from `parse_line`.
    pub fn is_json_message(line: &str) -> (r: bool)
        ensures
            r == is_json_shaped(line@),
    {
        let n = line.unicode_len();
        n >= 1 && line.get_char(0) == '{' && line.get_char(n - 1) == '}'
    }

    /// Wrap one raw line as a timestamped message. A line shaped like
    /// a JSON object belongs to a decoding path that does not exist
    /// yet, so such input is excluded here; `is_json_message` tells
    /// them apart.
    pub fn parse_line(&self, line: String) -> (r: RedeyeResult<LogMessage>)
        requires
            !is_json_shaped(line@),
        ensures
            r matches Ok(m) && m.line_text() == line@,
    {
        Self::from_plain_text(line)
    }
}

impl Default for LineParser {
    fn default() -> (r: Self) {
        LineParser
    }
}

} // verus!
