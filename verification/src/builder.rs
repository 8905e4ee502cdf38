//! Interpreting captures into typed, named field values.
//!
//! A [`FieldBuilder`] is a consuming, fluent accumulator: each call
//! takes the builder and hands back a new one (or an error). A capture
//! equal to the sentinel `-` means the field was not recorded: the
//! field is omitted entirely, which is different from a capture that is
//! missing from the layout (a layout bug, reported as a parse error)
//! and from a capture whose text is malformed for the requested type.
//! `add_mapping_field` opens a nested scope for grouped values;
//! `complete_mapping` closes it, inserting the nested mapping into the
//! parent unless it stayed empty — an empty mapping is never emitted.

use vstd::prelude::*;
use crate::capture::Captures;
use crate::num::parse_u64_model;
use crate::timestamp::ts_model;
use crate::types::{
    fields_model, value_model, ErrorModel, LogField, LogFieldValue, RedeyeError, RedeyeResult,
    ValueModel,
};

verus! {

use vstd::string::StrSliceExecFns;

/// The slice that marks a field the log did not record.
pub open spec fn sentinel() -> Seq<char> {
    seq!['-']
}

/// Recognise the `-` marker that represents empty fields.
pub fn empty_field<'a>(val: &'a str) -> (r: Option<&'a str>)
    ensures
        match r {
            Some(v) => val@ != sentinel() && v@ == val@,
            None => val@ == sentinel(),
        },
{
    let n = val.unicode_len();
    if n == 1 && val.get_char(0) == '-' {
        proof {
            assert(val@ =~= sentinel());
        }
        None
    } else {
        proof {
            if val@ == sentinel() {
                assert(val@.len() == 1);
                assert(val@[0] == '-');
            }
        }
        Some(val)
    }
}

/// How a text field reads the capture at `index`: absent on the
/// sentinel, the capture text otherwise, an error if the layout has no
/// such position.
pub open spec fn text_capture(caps: Seq<Seq<char>>, index: int, line: Seq<char>) -> Result<
    Option<ValueModel>,
    ErrorModel,
> {
    if !(0 <= index < caps.len()) {
        Err(ErrorModel::ParseError(line))
    } else if caps[index] == sentinel() {
        Ok(None)
    } else {
        Ok(Some(ValueModel::Text(caps[index])))
    }
}

/// How an integer field reads the capture at `index`: as a text field,
/// but the capture must parse as an unsigned base-10 value.
pub open spec fn int_capture(caps: Seq<Seq<char>>, index: int, line: Seq<char>) -> Result<
    Option<ValueModel>,
    ErrorModel,
> {
    if !(0 <= index < caps.len()) {
        Err(ErrorModel::ParseError(line))
    } else if caps[index] == sentinel() {
        Ok(None)
    } else {
        match parse_u64_model(caps[index]) {
            Some(v) => Ok(Some(ValueModel::Int(v))),
            None => Err(ErrorModel::ParseError(line)),
        }
    }
}

/// How a timestamp field reads the capture at `index`: as a text
/// field, but the capture must match the timestamp format; a mismatch
/// is the distinct timestamp error, carrying the capture itself.
pub open spec fn ts_capture(caps: Seq<Seq<char>>, index: int, line: Seq<char>) -> Result<
    Option<ValueModel>,
    ErrorModel,
> {
    if !(0 <= index < caps.len()) {
        Err(ErrorModel::ParseError(line))
    } else if caps[index] == sentinel() {
        Ok(None)
    } else {
        match ts_model(caps[index]) {
            Some(t) => Ok(Some(ValueModel::Timestamp(t))),
            None => Err(ErrorModel::TimestampParseError(caps[index])),
        }
    }
}

/// The abstract value of an optional field value.
pub open spec fn value_opt_model(o: Option<LogFieldValue>) -> Option<ValueModel> {
    match o {
        Some(v) => Some(value_model(v)),
        None => None,
    }
}

/// An executable capture reading agrees with its specification.
pub open spec fn models_capture(
    r: RedeyeResult<Option<LogFieldValue>>,
    m: Result<Option<ValueModel>, ErrorModel>,
) -> bool {
    match r {
        Ok(o) => m matches Ok(mo) && value_opt_model(o) == mo,
        Err(e) => m matches Err(em) && e@ == em,
    }
}

/// Read the capture at `index` as a text value.
pub fn parse_text_value(matches: &Captures, index: usize, line: &str) -> (r: RedeyeResult<
    Option<LogFieldValue>,
>)
    ensures
        models_capture(r, text_capture(matches@, index as int, line@)),
{
    let cap = match matches.get(index) {
        None => {
            return Err(RedeyeError::ParseError(line.to_owned()));
        },
        Some(c) => c,
    };
    match empty_field(cap.as_str()) {
        None => Ok(None),
        Some(v) => Ok(Some(LogFieldValue::Text(v.to_owned()))),
    }
}

/// Read the capture at `index` as an unsigned integer value.
pub fn parse_int_value(matches: &Captures, index: usize, line: &str) -> (r: RedeyeResult<
    Option<LogFieldValue>,
>)
    ensures
        models_capture(r, int_capture(matches@, index as int, line@)),
{
    let cap = match matches.get(index) {
        None => {
            return Err(RedeyeError::ParseError(line.to_owned()));
        },
        Some(c) => c,
    };
    match empty_field(cap.as_str()) {
        None => Ok(None),
        Some(v) => match crate::num::parse_u64(v) {
            Some(n) => Ok(Some(LogFieldValue::Int(n))),
            None => Err(RedeyeError::ParseError(line.to_owned())),
        },
    }
}

/// Read the capture at `index` as a timestamp value.
pub fn parse_timestamp(matches: &Captures, index: usize, line: &str) -> (r: RedeyeResult<
    Option<LogFieldValue>,
>)
    ensures
        models_capture(r, ts_capture(matches@, index as int, line@)),
{
    let cap = match matches.get(index) {
        None => {
            return Err(RedeyeError::ParseError(line.to_owned()));
        },
        Some(c) => c,
    };
    match empty_field(cap.as_str()) {
        None => Ok(None),
        Some(v) => match crate::timestamp::parse_timestamp_text(v) {
            Some(t) => Ok(Some(LogFieldValue::Timestamp(t))),
            None => Err(RedeyeError::TimestampParseError(cap.clone())),
        },
    }
}

/// Builder that accumulates named fields read from the captures of one
/// matched line.
#[derive(Debug)]
pub struct FieldBuilder {
    line: String,
    captures: Captures,
    field: Option<String>,
    parent: Option<Box<FieldBuilder>>,
    values: Vec<LogField>,
}

impl FieldBuilder {
    /// The captures this builder reads from.
    pub closed spec fn caps_view(self) -> Seq<Seq<char>> {
        self.captures@
    }

    /// The trimmed line the captures came from, carried for error
    /// reports.
    pub closed spec fn line_text(self) -> Seq<char> {
        self.line@
    }

    /// The abstract map accumulated in the current scope.
    pub closed spec fn scope(self) -> Map<Seq<char>, ValueModel> {
        fields_model(self.values@)
    }

    /// The field name the current nested scope will be inserted under,
    /// if one is open.
    pub closed spec fn scope_name(self) -> Option<Seq<char>> {
        match self.field {
            Some(f) => Some(f@),
            None => None,
        }
    }

    /// The parent accumulator the current nested scope will return to,
    /// if one is open.
    pub closed spec fn parent_builder(self) -> Option<FieldBuilder> {
        match self.parent {
            Some(b) => Some(*b),
            None => None,
        }
    }

    /// A fresh root builder over the captures of one matched line.
    pub fn root(line: &str, captures: Captures) -> (b: FieldBuilder)
        ensures
            b.caps_view() == captures@,
            b.line_text() == line@,
            b.scope() == Map::<Seq<char>, ValueModel>::empty(),
            b.scope_name() is None,
            b.parent_builder() is None,
    {
        FieldBuilder {
            line: line.to_owned(),
            captures,
            field: None,
            parent: None,
            values: Vec::new(),
        }
    }

    /// Read the capture at `index` as text and add it under `field`;
    /// the sentinel adds nothing, a missing position is an error.
    pub fn add_text_field(self, field: &str, index: usize) -> (r: RedeyeResult<FieldBuilder>)
        ensures
            match r {
                Ok(b) => {
                    &&& text_capture(self.caps_view(), index as int, self.line_text()) matches Ok(
                        m,
                    ) && b.scope() == (match m {
                        Some(vm) => self.scope().insert(field@, vm),
                        None => self.scope(),
                    })
                    &&& b.caps_view() == self.caps_view()
                    &&& b.line_text() == self.line_text()
                    &&& b.scope_name() == self.scope_name()
                    &&& b.parent_builder() == self.parent_builder()
                },
                Err(e) => text_capture(self.caps_view(), index as int, self.line_text())
                    matches Err(em) && e@ == em,
            },
    {
        let mut this = self;
        let res = match parse_text_value(&this.captures, index, this.line.as_str()) {
            Err(e) => {
                return Err(e);
            },
            Ok(o) => o,
        };
        if let Some(v) = res {
            let ghost vs0 = this.values@;
            this.values.push(LogField { name: field.to_owned(), value: v });
            proof {
                assert(this.values@.drop_last() =~= vs0);
            }
        }
        Ok(this)
    }

    /// Read the capture at `index` as a timestamp and add it under
    /// `field`.
    pub fn add_timestamp_field(self, field: &str, index: usize) -> (r: RedeyeResult<
        FieldBuilder,
    >)
        ensures
            match r {
                Ok(b) => {
                    &&& ts_capture(self.caps_view(), index as int, self.line_text()) matches Ok(m)
                        && b.scope() == (match m {
                        Some(vm) => self.scope().insert(field@, vm),
                        None => self.scope(),
                    })
                    &&& b.caps_view() == self.caps_view()
                    &&& b.line_text() == self.line_text()
                    &&& b.scope_name() == self.scope_name()
                    &&& b.parent_builder() == self.parent_builder()
                },
                Err(e) => ts_capture(self.caps_view(), index as int, self.line_text()) matches Err(
                    em,
                ) && e@ == em,
            },
    {
        let mut this = self;
        let res = match parse_timestamp(&this.captures, index, this.line.as_str()) {
            Err(e) => {
                return Err(e);
            },
            Ok(o) => o,
        };
        if let Some(v) = res {
            let ghost vs0 = this.values@;
            this.values.push(LogField { name: field.to_owned(), value: v });
            proof {
                assert(this.values@.drop_last() =~= vs0);
            }
        }
        Ok(this)
    }

    /// Read the capture at `index` as an unsigned integer and add it
    /// under `field`.
    pub fn add_int_field(self, field: &str, index: usize) -> (r: RedeyeResult<FieldBuilder>)
        ensures
            match r {
                Ok(b) => {
                    &&& int_capture(self.caps_view(), index as int, self.line_text()) matches Ok(
                        m,
                    ) && b.scope() == (match m {
                        Some(vm) => self.scope().insert(field@, vm),
                        None => self.scope(),
                    })
                    &&& b.caps_view() == self.caps_view()
                    &&& b.line_text() == self.line_text()
                    &&& b.scope_name() == self.scope_name()
                    &&& b.parent_builder() == self.parent_builder()
                },
                Err(e) => int_capture(self.caps_view(), index as int, self.line_text())
                    matches Err(em) && e@ == em,
            },
    {
        let mut this = self;
        let res = match parse_int_value(&this.captures, index, this.line.as_str()) {
            Err(e) => {
                return Err(e);
            },
            Ok(o) => o,
        };
        if let Some(v) = res {
            let ghost vs0 = this.values@;
            this.values.push(LogField { name: field.to_owned(), value: v });
            proof {
                assert(this.values@.drop_last() =~= vs0);
            }
        }
        Ok(this)
    }

    /// Unconditionally add a fixed text value under `field`.
    pub fn add_fixed_value(self, field: &str, value: &str) -> (b: FieldBuilder)
        ensures
            b.scope() == self.scope().insert(field@, ValueModel::Text(value@)),
            b.caps_view() == self.caps_view(),
            b.line_text() == self.line_text(),
            b.scope_name() == self.scope_name(),
            b.parent_builder() == self.parent_builder(),
    {
        let mut this = self;
        let ghost vs0 = this.values@;
        this.values.push(
            LogField { name: field.to_owned(), value: LogFieldValue::Text(value.to_owned()) },
        );
        proof {
            assert(this.values@.drop_last() =~= vs0);
            assert(this.values@.last().name@ == field@);
            assert(value_model(this.values@.last().value) == ValueModel::Text(value@));
            assert(fields_model(this.values@) == fields_model(vs0).insert(
                field@,
                ValueModel::Text(value@),
            ));
        }
        this
    }

    /// Open a nested scope whose accumulated mapping will be inserted
    /// under `field` when `complete_mapping` is called.
    pub fn add_mapping_field(self, field: &str) -> (b: FieldBuilder)
        ensures
            b.scope() == Map::<Seq<char>, ValueModel>::empty(),
            b.caps_view() == self.caps_view(),
            b.line_text() == self.line_text(),
            b.scope_name() matches Some(f) && f == field@,
            b.parent_builder() matches Some(p) && p.scope() == self.scope() && p.line_text()
                == self.line_text() && p.scope_name() == self.scope_name() && p.parent_builder()
                == self.parent_builder(),
    {
        let mut this = self;
        let line2 = this.line.clone();
        let mut caps = Captures::new(Vec::new());
        core::mem::swap(&mut this.captures, &mut caps);
        FieldBuilder {
            line: line2,
            captures: caps,
            field: Some(field.to_owned()),
            parent: Some(Box::new(this)),
            values: Vec::new(),
        }
    }

    /// Close the open nested scope: insert its mapping into the parent
    /// under the remembered name — unless it stayed empty, in which
    /// case nothing is inserted — and hand the parent back.
    pub fn complete_mapping(self) -> (b: FieldBuilder)
        requires
            self.parent_builder() is Some,
            self.scope_name() is Some,
        ensures
            ({
                let p = self.parent_builder()->Some_0;
                &&& b.caps_view() == self.caps_view()
                &&& b.line_text() == p.line_text()
                &&& b.scope_name() == p.scope_name()
                &&& b.parent_builder() == p.parent_builder()
                &&& b.scope() == (if self.scope() == Map::<Seq<char>, ValueModel>::empty() {
                    p.scope()
                } else {
                    p.scope().insert(
                        self.scope_name()->Some_0,
                        ValueModel::Mapping(self.scope()),
                    )
                })
            }),
    {
        let ghost s0 = self;
        let FieldBuilder { line: _, captures, field, parent, values } = self;
        let ghost vsn = values@;
        let mut p = *(parent.unwrap());
        p.captures = captures;
        if values.len() > 0 {
            proof {
                let k = vsn.last().name@;
                crate::types::lemma_fields_model_contains(vsn, k);
                assert(fields_model(vsn).contains_key(k));
                assert(!Map::<Seq<char>, ValueModel>::empty().contains_key(k));
                assert(fields_model(vsn) != Map::<Seq<char>, ValueModel>::empty());
            }
            let ghost vs0 = p.values@;
            let name = field.unwrap();
            p.values.push(LogField { name, value: LogFieldValue::Mapping(values) });
            proof {
                assert(p.values@.drop_last() =~= vs0);
                assert(p.values@.last().name@ == s0.scope_name()->Some_0);
                assert(value_model(p.values@.last().value) == ValueModel::Mapping(
                    fields_model(vsn),
                ));
                assert(fields_model(p.values@) == fields_model(vs0).insert(
                    s0.scope_name()->Some_0,
                    ValueModel::Mapping(s0.scope()),
                ));
            }
        }
        p
    }

    /// Finish at the root scope and hand back the accumulated fields.
    pub fn build(self) -> (r: Vec<LogField>)
        requires
            self.parent_builder() is None,
        ensures
            fields_model(r@) == self.scope(),
    {
        self.values
    }
}

} // verus!
