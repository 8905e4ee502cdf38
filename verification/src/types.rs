//! Core value and error types of the library.
//!
//! A parsed line becomes a [`LogEvent`]: a collection of named, typed
//! field values. Field values are a closed sum — text, unsigned
//! integer, fixed-offset timestamp, or a nested mapping of more values.
//! In contracts an event is read as a mathematical map from field name
//! to abstract value, so insertion order is irrelevant and presence of
//! a key is meaningful.

use vstd::prelude::*;
use crate::timestamp::LogTimestamp;

verus! {

/// Outcome of a fallible operation of this library.
pub type RedeyeResult<T> = Result<T, RedeyeError>;

/// Abstract form of a [`RedeyeError`], over character sequences.
pub enum ErrorModel {
    /// A failure of the byte-level input or output around the pipeline.
    IoError(Seq<char>),
    /// A failure while rendering an event for the downstream consumer.
    SerializationError(Seq<char>),
    /// A timestamp capture that does not match the timestamp format.
    TimestampParseError(Seq<char>),
    /// A line that does not match the configured capture layout, or a
    /// field whose text does not have the expected shape; carries the
    /// trimmed line.
    ParseError(Seq<char>),
    /// The batch consumer is gone; no further batch can be delivered.
    Disconnected,
}

/// Possible errors while parsing and forwarding access-log events.
///
/// Layout and timestamp mismatches are data-shaped: one bad line never
/// aborts the stream. A disconnected channel is resource-shaped and
/// fatal. The payloads carry diagnostic text.
#[derive(Debug, Clone, PartialEq, Eq)]
pub enum RedeyeError {
    IoError(String),
    SerializationError(String),
    TimestampParseError(String),
    ParseError(String),
    Disconnected,
}

impl View for RedeyeError {
    type V = ErrorModel;

    open spec fn view(&self) -> ErrorModel {
        match self {
            RedeyeError::IoError(s) => ErrorModel::IoError(s@),
            RedeyeError::SerializationError(s) => ErrorModel::SerializationError(s@),
            RedeyeError::TimestampParseError(s) => ErrorModel::TimestampParseError(s@),
            RedeyeError::ParseError(s) => ErrorModel::ParseError(s@),
            RedeyeError::Disconnected => ErrorModel::Disconnected,
        }
    }
}

impl RedeyeError {
    pub fn is_io_error(&self) -> (r: bool)
        ensures
            r == (self@ is IoError),
    {
        matches!(self, RedeyeError::IoError(_))
    }

    pub fn is_serialization_error(&self) -> (r: bool)
        ensures
            r == (self@ is SerializationError),
    {
        matches!(self, RedeyeError::SerializationError(_))
    }

    pub fn is_timestamp_parse_error(&self) -> (r: bool)
        ensures
            r == (self@ is TimestampParseError),
    {
        matches!(self, RedeyeError::TimestampParseError(_))
    }

    pub fn is_parse_error(&self) -> (r: bool)
        ensures
            r == (self@ is ParseError),
    {
        matches!(self, RedeyeError::ParseError(_))
    }
}

/// Abstract form of a [`LogFieldValue`]: nested mappings are read as
/// mathematical maps from name to abstract value.
pub enum ValueModel {
    Mapping(Map<Seq<char>, ValueModel>),
    Timestamp(LogTimestamp),
    Text(Seq<char>),
    Int(u64),
}

/// One possible value of a log field.
///
/// Values may nest through `Mapping`, used for groups of values such as
/// request headers; the parsers of this crate only ever build one level
/// of nesting, and never an empty mapping.
#[derive(Debug, PartialEq, Eq)]
pub enum LogFieldValue {
    Mapping(Vec<LogField>),
    Timestamp(LogTimestamp),
    Text(String),
    Int(u64),
}

/// A named field value, one entry of an event or of a nested mapping.
#[derive(Debug, PartialEq, Eq)]
pub struct LogField {
    pub name: String,
    pub value: LogFieldValue,
}

/// Abstract value denoted by a field value.
pub open spec fn value_model(v: LogFieldValue) -> ValueModel
    decreases v,
{
    match v {
        LogFieldValue::Mapping(fs) => ValueModel::Mapping(fields_model(fs@)),
        LogFieldValue::Timestamp(t) => ValueModel::Timestamp(t),
        LogFieldValue::Text(s) => ValueModel::Text(s@),
        LogFieldValue::Int(n) => ValueModel::Int(n),
    }
}

/// Abstract map denoted by a list of named fields: entries are read in
/// order, a later entry with the same name overriding an earlier one.
pub open spec fn fields_model(s: Seq<LogField>) -> Map<Seq<char>, ValueModel>
    decreases s,
{
    if s.len() == 0 {
        Map::empty()
    } else {
        fields_model(s.drop_last()).insert(s.last().name@, value_model(s.last().value))
    }
}

/// The abstract map has a key exactly when some entry bears that name.
pub proof fn lemma_fields_model_contains(s: Seq<LogField>, k: Seq<char>)
    ensures
        fields_model(s).contains_key(k) <==> exists|i: int| 0 <= i < s.len() && s[i].name@ == k,
    decreases s,
{
    if s.len() > 0 {
        lemma_fields_model_contains(s.drop_last(), k);
        if fields_model(s).contains_key(k) {
            if s.last().name@ == k {
                assert(s[s.len() - 1].name@ == k);
            } else {
                let i = choose|i: int| 0 <= i < s.len() - 1 && s.drop_last()[i].name@ == k;
                assert(s[i].name@ == k);
            }
        }
        if exists|i: int| 0 <= i < s.len() && s[i].name@ == k {
            let i = choose|i: int| 0 <= i < s.len() && s[i].name@ == k;
            if i < s.len() - 1 {
                assert(s.drop_last()[i].name@ == k);
            }
        }
    }
}

/// The abstract map reads the last entry bearing a name.
pub proof fn lemma_fields_model_get(s: Seq<LogField>, i: int)
    requires
        0 <= i < s.len(),
        forall|j: int| i < j < s.len() ==> s[j].name@ != s[i].name@,
    ensures
        fields_model(s).contains_key(s[i].name@),
        fields_model(s)[s[i].name@] == value_model(s[i].value),
    decreases s,
{
    if i == s.len() - 1 {
        assert(s.last() == s[i]);
    } else {
        assert(s.drop_last()[i] == s[i]);
        lemma_fields_model_get(s.drop_last(), i);
        assert(s.last().name@ != s[i].name@);
    }
}

/// Holder for the values parsed from a single log line.
///
/// In contracts an event is its abstract map; two events with the same
/// map carry the same information, whatever order their fields were
/// added in.
#[derive(Debug, PartialEq, Eq)]
pub struct LogEvent {
    values: Vec<LogField>,
}

impl View for LogEvent {
    type V = Map<Seq<char>, ValueModel>;

    closed spec fn view(&self) -> Map<Seq<char>, ValueModel> {
        fields_model(self.values@)
    }
}

impl LogEvent {
    /// Wrap a list of named fields as an event.
    pub fn from_fields(values: Vec<LogField>) -> (r: LogEvent)
        ensures
            r@ == fields_model(values@),
    {
        LogEvent { values }
    }

    /// The fields of the event, in the order they were added.
    pub fn fields(&self) -> (r: &Vec<LogField>)
        ensures
            fields_model(r@) == self@,
    {
        &self.values
    }

    /// Look up one field by name: the value of the last entry bearing
    /// the name, if any.
    pub fn get(&self, name: &str) -> (r: Option<&LogFieldValue>)
        ensures
            match r {
                Some(v) => self@.contains_key(name@) && value_model(*v) == self@[name@],
                None => !self@.contains_key(name@),
            },
    {
        let n = self.values.len();
        let mut i = n;
        while i > 0
            invariant
                0 <= i <= n,
                n == self.values.len(),
                forall|j: int| i <= j < n ==> self.values@[j].name@ != name@,
            decreases i,
        {
            i = i - 1;
            if crate::scan::str_eq(self.values[i].name.as_str(), name) {
                proof {
                    lemma_fields_model_get(self.values@, i as int);
                }
                return Some(&self.values[i].value);
            }
        }
        proof {
            lemma_fields_model_contains(self.values@, name@);
        }
        None
    }
}

} // verus!
