//! Parsers for the Common and Combined access-log layouts.
//!
//! Each parser trims the line, matches it against its layout, and
//! interprets the captures in a fixed order: three text fields, the
//! timestamp, the four request fields, two integer fields — the
//! Combined layout then groups referer and user agent inside a nested
//! `request_headers` mapping — and finally the fixed format-version
//! marker and the original trimmed line under `message`. What `parse`
//! returns is pinned down, for every input line, by a specification
//! fold over the captures.

use vstd::prelude::*;
use crate::builder::{int_capture, sentinel, text_capture, ts_capture, FieldBuilder};
use crate::capture::{combined_captures, common_captures};
use crate::num::parse_u64_model;
use crate::scan::{trim_line, trim_model};
use crate::timestamp::ts_model;
use crate::types::{ErrorModel, LogEvent, RedeyeError, RedeyeResult, ValueModel};

verus! {

/// One step of the specification fold: add the field `name` read as
/// `c` to the map accumulated so far, keeping the first error.
pub open spec fn field_step(
    m: Result<Map<Seq<char>, ValueModel>, ErrorModel>,
    name: Seq<char>,
    c: Result<Option<ValueModel>, ErrorModel>,
) -> Result<Map<Seq<char>, ValueModel>, ErrorModel> {
    match m {
        Err(e) => Err(e),
        Ok(map) => match c {
            Err(em) => Err(em),
            Ok(None) => Ok(map),
            Ok(Some(vm)) => Ok(map.insert(name, vm)),
        },
    }
}

/// Add a fixed text value under `name`; never fails.
pub open spec fn fixed_step(
    m: Result<Map<Seq<char>, ValueModel>, ErrorModel>,
    name: Seq<char>,
    v: Seq<char>,
) -> Result<Map<Seq<char>, ValueModel>, ErrorModel> {
    match m {
        Err(e) => Err(e),
        Ok(map) => Ok(map.insert(name, ValueModel::Text(v))),
    }
}

/// Close a nested group: insert it under `name` unless it stayed
/// empty, keeping the first error.
pub open spec fn mapping_step(
    m: Result<Map<Seq<char>, ValueModel>, ErrorModel>,
    name: Seq<char>,
    nested: Result<Map<Seq<char>, ValueModel>, ErrorModel>,
) -> Result<Map<Seq<char>, ValueModel>, ErrorModel> {
    match m {
        Err(e) => Err(e),
        Ok(map) => match nested {
            Err(em) => Err(em),
            Ok(nm) => if nm == Map::<Seq<char>, ValueModel>::empty() {
                Ok(map)
            } else {
                Ok(map.insert(name, ValueModel::Mapping(nm)))
            },
        },
    }
}

/// The ten positional fields shared by both layouts, read in order
/// from the captures of a matched line.
pub open spec fn core_fields_model(caps: Seq<Seq<char>>, line: Seq<char>) -> Result<
    Map<Seq<char>, ValueModel>,
    ErrorModel,
> {
    let m = field_step(
        Ok(Map::<Seq<char>, ValueModel>::empty()),
        "remote_host"@,
        text_capture(caps, 1, line),
    );
    let m = field_step(m, "ident"@, text_capture(caps, 2, line));
    let m = field_step(m, "remote_user"@, text_capture(caps, 3, line));
    let m = field_step(m, "@timestamp"@, ts_capture(caps, 4, line));
    let m = field_step(m, "requested_url"@, text_capture(caps, 5, line));
    let m = field_step(m, "method"@, text_capture(caps, 6, line));
    let m = field_step(m, "requested_uri"@, text_capture(caps, 7, line));
    let m = field_step(m, "protocol"@, text_capture(caps, 8, line));
    let m = field_step(m, "status_code"@, int_capture(caps, 9, line));
    field_step(m, "content_length"@, int_capture(caps, 10, line))
}

/// The event a Common-layout line denotes, given its captures.
pub open spec fn common_fields_model(caps: Seq<Seq<char>>, line: Seq<char>) -> Result<
    Map<Seq<char>, ValueModel>,
    ErrorModel,
> {
    let m = core_fields_model(caps, line);
    let m = fixed_step(m, "@version"@, "1"@);
    fixed_step(m, "message"@, line)
}

/// The event a Combined-layout line denotes, given its captures: the
/// shared fields, then referer and user agent grouped under
/// `request_headers`, then the fixed fields.
pub open spec fn combined_fields_model(caps: Seq<Seq<char>>, line: Seq<char>) -> Result<
    Map<Seq<char>, ValueModel>,
    ErrorModel,
> {
    let m = core_fields_model(caps, line);
    let nested = field_step(
        field_step(
            Ok(Map::<Seq<char>, ValueModel>::empty()),
            "referer"@,
            text_capture(caps, 11, line),
        ),
        "user_agent"@,
        text_capture(caps, 12, line),
    );
    let m = mapping_step(m, "request_headers"@, nested);
    let m = fixed_step(m, "@version"@, "1"@);
    fixed_step(m, "message"@, line)
}

/// What parsing a raw line with the Common parser produces: the line
/// is trimmed, matched against the Common layout — a mismatch is a
/// parse error carrying the trimmed line — and its captures are read.
pub open spec fn common_parse_model(raw: Seq<char>) -> Result<
    Map<Seq<char>, ValueModel>,
    ErrorModel,
> {
    let line = trim_model(raw);
    match common_captures(line) {
        None => Err(ErrorModel::ParseError(line)),
        Some(caps) => common_fields_model(caps, line),
    }
}

/// What parsing a raw line with the Combined parser produces.
pub open spec fn combined_parse_model(raw: Seq<char>) -> Result<
    Map<Seq<char>, ValueModel>,
    ErrorModel,
> {
    let line = trim_model(raw);
    match combined_captures(line) {
        None => Err(ErrorModel::ParseError(line)),
        Some(caps) => combined_fields_model(caps, line),
    }
}

/// The field name assigned to capture position `i` of the Common
/// layout.
pub open spec fn common_field_name(i: int) -> Seq<char> {
    if i == 1 {
        "remote_host"@
    } else if i == 2 {
        "ident"@
    } else if i == 3 {
        "remote_user"@
    } else if i == 4 {
        "@timestamp"@
    } else if i == 5 {
        "requested_url"@
    } else if i == 6 {
        "method"@
    } else if i == 7 {
        "requested_uri"@
    } else if i == 8 {
        "protocol"@
    } else if i == 9 {
        "status_code"@
    } else if i == 10 {
        "content_length"@
    } else {
        Seq::empty()
    }
}

/// The field names of both layouts are pairwise distinct, so an
/// insertion under one name never disturbs another.
proof fn lemma_names_distinct()
    ensures
        "remote_host"@ != "ident"@,
        "remote_host"@ != "remote_user"@,
        "remote_host"@ != "@timestamp"@,
        "remote_host"@ != "requested_url"@,
        "remote_host"@ != "method"@,
        "remote_host"@ != "requested_uri"@,
        "remote_host"@ != "protocol"@,
        "remote_host"@ != "status_code"@,
        "remote_host"@ != "content_length"@,
        "remote_host"@ != "request_headers"@,
        "remote_host"@ != "referer"@,
        "remote_host"@ != "user_agent"@,
        "remote_host"@ != "@version"@,
        "remote_host"@ != "message"@,
        "ident"@ != "remote_user"@,
        "ident"@ != "@timestamp"@,
        "ident"@ != "requested_url"@,
        "ident"@ != "method"@,
        "ident"@ != "requested_uri"@,
        "ident"@ != "protocol"@,
        "ident"@ != "status_code"@,
        "ident"@ != "content_length"@,
        "ident"@ != "request_headers"@,
        "ident"@ != "referer"@,
        "ident"@ != "user_agent"@,
        "ident"@ != "@version"@,
        "ident"@ != "message"@,
        "remote_user"@ != "@timestamp"@,
        "remote_user"@ != "requested_url"@,
        "remote_user"@ != "method"@,
        "remote_user"@ != "requested_uri"@,
        "remote_user"@ != "protocol"@,
        "remote_user"@ != "status_code"@,
        "remote_user"@ != "content_length"@,
        "remote_user"@ != "request_headers"@,
        "remote_user"@ != "referer"@,
        "remote_user"@ != "user_agent"@,
        "remote_user"@ != "@version"@,
        "remote_user"@ != "message"@,
        "@timestamp"@ != "requested_url"@,
        "@timestamp"@ != "method"@,
        "@timestamp"@ != "requested_uri"@,
        "@timestamp"@ != "protocol"@,
        "@timestamp"@ != "status_code"@,
        "@timestamp"@ != "content_length"@,
        "@timestamp"@ != "request_headers"@,
        "@timestamp"@ != "referer"@,
        "@timestamp"@ != "user_agent"@,
        "@timestamp"@ != "@version"@,
        "@timestamp"@ != "message"@,
        "requested_url"@ != "method"@,
        "requested_url"@ != "requested_uri"@,
        "requested_url"@ != "protocol"@,
        "requested_url"@ != "status_code"@,
        "requested_url"@ != "content_length"@,
        "requested_url"@ != "request_headers"@,
        "requested_url"@ != "referer"@,
        "requested_url"@ != "user_agent"@,
        "requested_url"@ != "@version"@,
        "requested_url"@ != "message"@,
        "method"@ != "requested_uri"@,
        "method"@ != "protocol"@,
        "method"@ != "status_code"@,
        "method"@ != "content_length"@,
        "method"@ != "request_headers"@,
        "method"@ != "referer"@,
        "method"@ != "user_agent"@,
        "method"@ != "@version"@,
        "method"@ != "message"@,
        "requested_uri"@ != "protocol"@,
        "requested_uri"@ != "status_code"@,
        "requested_uri"@ != "content_length"@,
        "requested_uri"@ != "request_headers"@,
        "requested_uri"@ != "referer"@,
        "requested_uri"@ != "user_agent"@,
        "requested_uri"@ != "@version"@,
        "requested_uri"@ != "message"@,
        "protocol"@ != "status_code"@,
        "protocol"@ != "content_length"@,
        "protocol"@ != "request_headers"@,
        "protocol"@ != "referer"@,
        "protocol"@ != "user_agent"@,
        "protocol"@ != "@version"@,
        "protocol"@ != "message"@,
        "status_code"@ != "content_length"@,
        "status_code"@ != "request_headers"@,
        "status_code"@ != "referer"@,
        "status_code"@ != "user_agent"@,
        "status_code"@ != "@version"@,
        "status_code"@ != "message"@,
        "content_length"@ != "request_headers"@,
        "content_length"@ != "referer"@,
        "content_length"@ != "user_agent"@,
        "content_length"@ != "@version"@,
        "content_length"@ != "message"@,
        "request_headers"@ != "referer"@,
        "request_headers"@ != "user_agent"@,
        "request_headers"@ != "@version"@,
        "request_headers"@ != "message"@,
        "referer"@ != "user_agent"@,
        "referer"@ != "@version"@,
        "referer"@ != "message"@,
        "user_agent"@ != "@version"@,
        "user_agent"@ != "message"@,
        "@version"@ != "message"@,
{
    reveal_strlit("remote_host");
    reveal_strlit("ident");
    reveal_strlit("remote_user");
    reveal_strlit("@timestamp");
    reveal_strlit("requested_url");
    reveal_strlit("method");
    reveal_strlit("requested_uri");
    reveal_strlit("protocol");
    reveal_strlit("status_code");
    reveal_strlit("content_length");
    reveal_strlit("request_headers");
    reveal_strlit("referer");
    reveal_strlit("user_agent");
    reveal_strlit("@version");
    reveal_strlit("message");
    assert("remote_host"@.len() == 11);
    assert("ident"@.len() == 5);
    assert("remote_user"@.len() == 11);
    assert("@timestamp"@.len() == 10);
    assert("requested_url"@.len() == 13);
    assert("method"@.len() == 6);
    assert("requested_uri"@.len() == 13);
    assert("protocol"@.len() == 8);
    assert("status_code"@.len() == 11);
    assert("content_length"@.len() == 14);
    assert("request_headers"@.len() == 15);
    assert("referer"@.len() == 7);
    assert("user_agent"@.len() == 10);
    assert("@version"@.len() == 8);
    assert("message"@.len() == 7);
    assert("@timestamp"@[0] == '@');
    assert("@version"@[0] == '@');
    assert("message"@[0] == 'm');
    assert("protocol"@[0] == 'p');
    assert("referer"@[0] == 'r');
    assert("remote_host"@[0] == 'r');
    assert("remote_host"@[7] == 'h');
    assert("remote_user"@[0] == 'r');
    assert("remote_user"@[7] == 'u');
    assert("requested_uri"@[12] == 'i');
    assert("requested_url"@[12] == 'l');
    assert("status_code"@[0] == 's');
    assert("user_agent"@[0] == 'u');
}

/// A fold step cannot make the key `k` appear when it adds a different
/// name, or when its capture read the sentinel and added nothing.
proof fn lemma_step_absent(
    m: Result<Map<Seq<char>, ValueModel>, ErrorModel>,
    name: Seq<char>,
    c: Result<Option<ValueModel>, ErrorModel>,
    k: Seq<char>,
)
    requires
        m matches Ok(mm) ==> !mm.contains_key(k),
        name != k || c == Ok::<Option<ValueModel>, ErrorModel>(None),
    ensures
        field_step(m, name, c) matches Ok(mm2) ==> !mm2.contains_key(k),
{
}

/// A fixed field under a different name cannot make `k` appear.
proof fn lemma_fixed_absent(
    m: Result<Map<Seq<char>, ValueModel>, ErrorModel>,
    name: Seq<char>,
    v: Seq<char>,
    k: Seq<char>,
)
    requires
        m matches Ok(mm) ==> !mm.contains_key(k),
        name != k,
    ensures
        fixed_step(m, name, v) matches Ok(mm2) ==> !mm2.contains_key(k),
{
}

/// Closing a nested group cannot make `k` appear when the group is
/// inserted under a different name, or when it stayed empty.
proof fn lemma_mapping_absent(
    m: Result<Map<Seq<char>, ValueModel>, ErrorModel>,
    name: Seq<char>,
    nested: Result<Map<Seq<char>, ValueModel>, ErrorModel>,
    k: Seq<char>,
)
    requires
        m matches Ok(mm) ==> !mm.contains_key(k),
        name != k || nested == Ok::<Map<Seq<char>, ValueModel>, ErrorModel>(
            Map::<Seq<char>, ValueModel>::empty(),
        ),
    ensures
        mapping_step(m, name, nested) matches Ok(mm2) ==> !mm2.contains_key(k),
{
}

/// A line that matches the Common layout with no `-` sentinel in any
/// position, a well-formed timestamp and well-formed counts parses
/// successfully, and every one of the ten declared fields is present
/// with its expected typed value — along with the fixed version marker
/// and the trimmed line under `message`.
pub proof fn lemma_common_parse_complete(raw: Seq<char>)
    requires
        common_captures(trim_model(raw)) is Some,
        forall|i: int|
            1 <= i <= 10 ==> #[trigger] common_captures(trim_model(raw))->Some_0[i] != sentinel(),
        ts_model(common_captures(trim_model(raw))->Some_0[4]) is Some,
        parse_u64_model(common_captures(trim_model(raw))->Some_0[9]) is Some,
        parse_u64_model(common_captures(trim_model(raw))->Some_0[10]) is Some,
    ensures
        common_parse_model(raw) is Ok,
        ({
            let m = common_parse_model(raw)->Ok_0;
            let caps = common_captures(trim_model(raw))->Some_0;
            &&& m.contains_key("remote_host"@) && m["remote_host"@] == ValueModel::Text(caps[1])
            &&& m.contains_key("ident"@) && m["ident"@] == ValueModel::Text(caps[2])
            &&& m.contains_key("remote_user"@) && m["remote_user"@] == ValueModel::Text(caps[3])
            &&& m.contains_key("@timestamp"@) && m["@timestamp"@] == ValueModel::Timestamp(
                ts_model(caps[4])->Some_0,
            )
            &&& m.contains_key("requested_url"@) && m["requested_url"@] == ValueModel::Text(
                caps[5],
            )
            &&& m.contains_key("method"@) && m["method"@] == ValueModel::Text(caps[6])
            &&& m.contains_key("requested_uri"@) && m["requested_uri"@] == ValueModel::Text(
                caps[7],
            )
            &&& m.contains_key("protocol"@) && m["protocol"@] == ValueModel::Text(caps[8])
            &&& m.contains_key("status_code"@) && m["status_code"@] == ValueModel::Int(
                parse_u64_model(caps[9])->Some_0,
            )
            &&& m.contains_key("content_length"@) && m["content_length"@] == ValueModel::Int(
                parse_u64_model(caps[10])->Some_0,
            )
            &&& m.contains_key("@version"@) && m["@version"@] == ValueModel::Text("1"@)
            &&& m.contains_key("message"@) && m["message"@] == ValueModel::Text(trim_model(raw))
        }),
{
    lemma_names_distinct();
    let line = trim_model(raw);
    let caps = common_captures(line)->Some_0;
    assert(caps.len() == 11);
    assert(caps[1] != sentinel());
    assert(caps[2] != sentinel());
    assert(caps[3] != sentinel());
    assert(caps[4] != sentinel());
    assert(caps[5] != sentinel());
    assert(caps[6] != sentinel());
    assert(caps[7] != sentinel());
    assert(caps[8] != sentinel());
    assert(caps[9] != sentinel());
    assert(caps[10] != sentinel());
    let m10 = Map::<Seq<char>, ValueModel>::empty().insert(
        "remote_host"@,
        ValueModel::Text(caps[1]),
    ).insert("ident"@, ValueModel::Text(caps[2])).insert(
        "remote_user"@,
        ValueModel::Text(caps[3]),
    ).insert("@timestamp"@, ValueModel::Timestamp(ts_model(caps[4])->Some_0)).insert(
        "requested_url"@,
        ValueModel::Text(caps[5]),
    ).insert("method"@, ValueModel::Text(caps[6])).insert(
        "requested_uri"@,
        ValueModel::Text(caps[7]),
    ).insert("protocol"@, ValueModel::Text(caps[8])).insert(
        "status_code"@,
        ValueModel::Int(parse_u64_model(caps[9])->Some_0),
    ).insert("content_length"@, ValueModel::Int(parse_u64_model(caps[10])->Some_0));
    assert(core_fields_model(caps, line) == Ok::<Map<Seq<char>, ValueModel>, ErrorModel>(m10));
    let m12 = m10.insert("@version"@, ValueModel::Text("1"@)).insert(
        "message"@,
        ValueModel::Text(line),
    );
    assert(common_parse_model(raw) == Ok::<Map<Seq<char>, ValueModel>, ErrorModel>(m12));
}

/// A position whose capture is the `-` sentinel leaves no trace: the
/// corresponding field is absent from the parsed Common event, not
/// present with an empty value.
pub proof fn lemma_common_sentinel_absent(raw: Seq<char>, pos: int)
    requires
        common_captures(trim_model(raw)) is Some,
        1 <= pos <= 10,
        common_captures(trim_model(raw))->Some_0[pos] == sentinel(),
        common_parse_model(raw) is Ok,
    ensures
        !common_parse_model(raw)->Ok_0.contains_key(common_field_name(pos)),
{
    lemma_names_distinct();
    let line = trim_model(raw);
    let caps = common_captures(line)->Some_0;
    let k = common_field_name(pos);
    assert(caps.len() == 11);
    let m0 = Ok::<Map<Seq<char>, ValueModel>, ErrorModel>(Map::<Seq<char>, ValueModel>::empty());
    let m1 = field_step(m0, "remote_host"@, text_capture(caps, 1, line));
    let m2 = field_step(m1, "ident"@, text_capture(caps, 2, line));
    let m3 = field_step(m2, "remote_user"@, text_capture(caps, 3, line));
    let m4 = field_step(m3, "@timestamp"@, ts_capture(caps, 4, line));
    let m5 = field_step(m4, "requested_url"@, text_capture(caps, 5, line));
    let m6 = field_step(m5, "method"@, text_capture(caps, 6, line));
    let m7 = field_step(m6, "requested_uri"@, text_capture(caps, 7, line));
    let m8 = field_step(m7, "protocol"@, text_capture(caps, 8, line));
    let m9 = field_step(m8, "status_code"@, int_capture(caps, 9, line));
    let m10 = field_step(m9, "content_length"@, int_capture(caps, 10, line));
    lemma_step_absent(m0, "remote_host"@, text_capture(caps, 1, line), k);
    lemma_step_absent(m1, "ident"@, text_capture(caps, 2, line), k);
    lemma_step_absent(m2, "remote_user"@, text_capture(caps, 3, line), k);
    lemma_step_absent(m3, "@timestamp"@, ts_capture(caps, 4, line), k);
    lemma_step_absent(m4, "requested_url"@, text_capture(caps, 5, line), k);
    lemma_step_absent(m5, "method"@, text_capture(caps, 6, line), k);
    lemma_step_absent(m6, "requested_uri"@, text_capture(caps, 7, line), k);
    lemma_step_absent(m7, "protocol"@, text_capture(caps, 8, line), k);
    lemma_step_absent(m8, "status_code"@, int_capture(caps, 9, line), k);
    lemma_step_absent(m9, "content_length"@, int_capture(caps, 10, line), k);
    let m11 = fixed_step(m10, "@version"@, "1"@);
    lemma_fixed_absent(m10, "@version"@, "1"@, k);
    lemma_fixed_absent(m11, "message"@, line, k);
}

/// The same absence guarantee for the shared positions of the Combined
/// layout; a sentinel there is omitted from the event even though the
/// nested `request_headers` mapping is built afterwards.
pub proof fn lemma_combined_sentinel_absent(raw: Seq<char>, pos: int)
    requires
        combined_captures(trim_model(raw)) is Some,
        1 <= pos <= 10,
        combined_captures(trim_model(raw))->Some_0[pos] == sentinel(),
        combined_parse_model(raw) is Ok,
    ensures
        !combined_parse_model(raw)->Ok_0.contains_key(common_field_name(pos)),
{
    lemma_names_distinct();
    let line = trim_model(raw);
    let caps = combined_captures(line)->Some_0;
    let k = common_field_name(pos);
    assert(caps.len() == 13);
    let m0 = Ok::<Map<Seq<char>, ValueModel>, ErrorModel>(Map::<Seq<char>, ValueModel>::empty());
    let m1 = field_step(m0, "remote_host"@, text_capture(caps, 1, line));
    let m2 = field_step(m1, "ident"@, text_capture(caps, 2, line));
    let m3 = field_step(m2, "remote_user"@, text_capture(caps, 3, line));
    let m4 = field_step(m3, "@timestamp"@, ts_capture(caps, 4, line));
    let m5 = field_step(m4, "requested_url"@, text_capture(caps, 5, line));
    let m6 = field_step(m5, "method"@, text_capture(caps, 6, line));
    let m7 = field_step(m6, "requested_uri"@, text_capture(caps, 7, line));
    let m8 = field_step(m7, "protocol"@, text_capture(caps, 8, line));
    let m9 = field_step(m8, "status_code"@, int_capture(caps, 9, line));
    let m10 = field_step(m9, "content_length"@, int_capture(caps, 10, line));
    lemma_step_absent(m0, "remote_host"@, text_capture(caps, 1, line), k);
    lemma_step_absent(m1, "ident"@, text_capture(caps, 2, line), k);
    lemma_step_absent(m2, "remote_user"@, text_capture(caps, 3, line), k);
    lemma_step_absent(m3, "@timestamp"@, ts_capture(caps, 4, line), k);
    lemma_step_absent(m4, "requested_url"@, text_capture(caps, 5, line), k);
    lemma_step_absent(m5, "method"@, text_capture(caps, 6, line), k);
    lemma_step_absent(m6, "requested_uri"@, text_capture(caps, 7, line), k);
    lemma_step_absent(m7, "protocol"@, text_capture(caps, 8, line), k);
    lemma_step_absent(m8, "status_code"@, int_capture(caps, 9, line), k);
    lemma_step_absent(m9, "content_length"@, int_capture(caps, 10, line), k);
    let nested = field_step(
        field_step(
            Ok(Map::<Seq<char>, ValueModel>::empty()),
            "referer"@,
            text_capture(caps, 11, line),
        ),
        "user_agent"@,
        text_capture(caps, 12, line),
    );
    let m11 = mapping_step(m10, "request_headers"@, nested);
    lemma_mapping_absent(m10, "request_headers"@, nested, k);
    let m12 = fixed_step(m11, "@version"@, "1"@);
    lemma_fixed_absent(m11, "@version"@, "1"@, k);
    lemma_fixed_absent(m12, "message"@, line, k);
}

/// A line that does not match the Common layout parses to a
/// layout-mismatch error carrying the trimmed line.
pub proof fn lemma_common_no_match_is_parse_error(raw: Seq<char>)
    requires
        common_captures(trim_model(raw)) is None,
    ensures
        common_parse_model(raw) == Err::<Map<Seq<char>, ValueModel>, ErrorModel>(
            ErrorModel::ParseError(trim_model(raw)),
        ),
{
}

/// A line that does not match the Combined layout parses to a
/// layout-mismatch error carrying the trimmed line.
pub proof fn lemma_combined_no_match_is_parse_error(raw: Seq<char>)
    requires
        combined_captures(trim_model(raw)) is None,
    ensures
        combined_parse_model(raw) == Err::<Map<Seq<char>, ValueModel>, ErrorModel>(
            ErrorModel::ParseError(trim_model(raw)),
        ),
{
}

/// When both nested fields are `-`, the nested mapping stays empty and
/// the Combined event has no `request_headers` key at all.
pub proof fn lemma_combined_empty_headers_absent(raw: Seq<char>)
    requires
        combined_captures(trim_model(raw)) is Some,
        combined_captures(trim_model(raw))->Some_0[11] == sentinel(),
        combined_captures(trim_model(raw))->Some_0[12] == sentinel(),
        combined_parse_model(raw) is Ok,
    ensures
        !combined_parse_model(raw)->Ok_0.contains_key("request_headers"@),
{
    lemma_names_distinct();
    let line = trim_model(raw);
    let caps = combined_captures(line)->Some_0;
    let k = "request_headers"@;
    assert(caps.len() == 13);
    let m0 = Ok::<Map<Seq<char>, ValueModel>, ErrorModel>(Map::<Seq<char>, ValueModel>::empty());
    let m1 = field_step(m0, "remote_host"@, text_capture(caps, 1, line));
    let m2 = field_step(m1, "ident"@, text_capture(caps, 2, line));
    let m3 = field_step(m2, "remote_user"@, text_capture(caps, 3, line));
    let m4 = field_step(m3, "@timestamp"@, ts_capture(caps, 4, line));
    let m5 = field_step(m4, "requested_url"@, text_capture(caps, 5, line));
    let m6 = field_step(m5, "method"@, text_capture(caps, 6, line));
    let m7 = field_step(m6, "requested_uri"@, text_capture(caps, 7, line));
    let m8 = field_step(m7, "protocol"@, text_capture(caps, 8, line));
    let m9 = field_step(m8, "status_code"@, int_capture(caps, 9, line));
    let m10 = field_step(m9, "content_length"@, int_capture(caps, 10, line));
    lemma_step_absent(m0, "remote_host"@, text_capture(caps, 1, line), k);
    lemma_step_absent(m1, "ident"@, text_capture(caps, 2, line), k);
    lemma_step_absent(m2, "remote_user"@, text_capture(caps, 3, line), k);
    lemma_step_absent(m3, "@timestamp"@, ts_capture(caps, 4, line), k);
    lemma_step_absent(m4, "requested_url"@, text_capture(caps, 5, line), k);
    lemma_step_absent(m5, "method"@, text_capture(caps, 6, line), k);
    lemma_step_absent(m6, "requested_uri"@, text_capture(caps, 7, line), k);
    lemma_step_absent(m7, "protocol"@, text_capture(caps, 8, line), k);
    lemma_step_absent(m8, "status_code"@, int_capture(caps, 9, line), k);
    lemma_step_absent(m9, "content_length"@, int_capture(caps, 10, line), k);
    assert(text_capture(caps, 11, line) == Ok::<Option<ValueModel>, ErrorModel>(None));
    assert(text_capture(caps, 12, line) == Ok::<Option<ValueModel>, ErrorModel>(None));
    let nested = field_step(
        field_step(
            Ok(Map::<Seq<char>, ValueModel>::empty()),
            "referer"@,
            text_capture(caps, 11, line),
        ),
        "user_agent"@,
        text_capture(caps, 12, line),
    );
    assert(nested == Ok::<Map<Seq<char>, ValueModel>, ErrorModel>(
        Map::<Seq<char>, ValueModel>::empty(),
    ));
    let m11 = mapping_step(m10, "request_headers"@, nested);
    lemma_mapping_absent(m10, "request_headers"@, nested, k);
    let m12 = fixed_step(m11, "@version"@, "1"@);
    lemma_fixed_absent(m11, "@version"@, "1"@, k);
    lemma_fixed_absent(m12, "message"@, line, k);
}

/// Parse a single log line of a pre-determined format into an event
/// suitable for the downstream consumer.
///
/// Implementations ignore leading and trailing whitespace and remove
/// it before attempting to parse a line. `parse_model` names the exact
/// outcome an implementation owes for every line.
pub trait LogLineParser {
    /// The event or error that parsing `raw` must produce.
    spec fn parse_model(&self, raw: Seq<char>) -> Result<Map<Seq<char>, ValueModel>, ErrorModel>;

    /// Parse the given log line into a `LogEvent`.
    ///
    /// Returns an error if the line does not match the expected layout
    /// or a field in the line does not have the expected type.
    fn parse(&self, line: &str) -> (r: RedeyeResult<LogEvent>)
        ensures
            match r {
                Ok(e) => self.parse_model(line@) matches Ok(m) && e@ == m,
                Err(e) => self.parse_model(line@) matches Err(em) && e@ == em,
            },
    ;
}

/// Which capture layout a parser applies.
#[derive(Debug, Clone, Copy, PartialEq, Eq, Structural)]
enum Layout {
    Common,
    Combined,
}

/// Layout-based extractor shared by the two parsers: it matches the
/// trimmed line against the layout and hands back a field builder over
/// the captures.
#[derive(Debug)]
struct ParserImpl {
    layout: Layout,
}

impl ParserImpl {
    fn new(layout: Layout) -> (r: Self)
        ensures
            r.layout == layout,
    {
        ParserImpl { layout }
    }

    /// Apply the layout to the (already trimmed) line: a fresh builder
    /// over the captures on a match, a parse error carrying the line
    /// otherwise.
    fn apply(&self, line: &str) -> (r: RedeyeResult<FieldBuilder>)
        ensures
            ({
                let caps = match self.layout {
                    Layout::Common => common_captures(line@),
                    Layout::Combined => combined_captures(line@),
                };
                match r {
                    Ok(b) => {
                        &&& caps matches Some(m) && b.caps_view() == m
                        &&& b.line_text() == line@
                        &&& b.scope() == Map::<Seq<char>, ValueModel>::empty()
                        &&& b.scope_name() is None
                        &&& b.parent_builder() is None
                    },
                    Err(e) => caps is None && e@ == ErrorModel::ParseError(line@),
                }
            }),
    {
        let c = match self.layout {
            Layout::Common => crate::capture::match_common(line),
            Layout::Combined => crate::capture::match_combined(line),
        };
        match c {
            None => Err(RedeyeError::ParseError(line.to_owned())),
            Some(caps) => Ok(FieldBuilder::root(line, caps)),
        }
    }
}

/// Parser for access logs in the NCSA Common log format, such as
///
/// ```text
/// 127.0.0.1 - frank [10/Oct/2000:13:55:36 -0700] "GET /index.html HTTP/1.0" 200 2326
/// ```
///
/// The `-` in the second position marks a missing value: that field is
/// omitted from the event. The request is additionally split into
/// method, path and protocol fields, and the fixed `@version` marker
/// and the whole trimmed line under `message` are appended.
#[derive(Debug)]
pub struct CommonLogLineParser {
    inner: ParserImpl,
}

impl CommonLogLineParser {
    #[verifier::type_invariant]
    spec fn wf(self) -> bool {
        self.inner.layout == Layout::Common
    }

    pub fn new() -> (r: Self) {
        CommonLogLineParser { inner: ParserImpl::new(Layout::Common) }
    }
}

impl LogLineParser for CommonLogLineParser {
    open spec fn parse_model(&self, raw: Seq<char>) -> Result<
        Map<Seq<char>, ValueModel>,
        ErrorModel,
    > {
        common_parse_model(raw)
    }

    fn parse(&self, line: &str) -> (r: RedeyeResult<LogEvent>) {
        proof {
            use_type_invariant(self);
        }
        let line = trim_line(line);
        let b = match self.inner.apply(line) {
            Err(e) => {
                return Err(e);
            },
            Ok(b) => b,
        };
        let b = match b.add_text_field("remote_host", 1) {
            Err(e) => {
                return Err(e);
            },
            Ok(b) => b,
        };
        let b = match b.add_text_field("ident", 2) {
            Err(e) => {
                return Err(e);
            },
            Ok(b) => b,
        };
        let b = match b.add_text_field("remote_user", 3) {
            Err(e) => {
                return Err(e);
            },
            Ok(b) => b,
        };
        let b = match b.add_timestamp_field("@timestamp", 4) {
            Err(e) => {
                return Err(e);
            },
            Ok(b) => b,
        };
        let b = match b.add_text_field("requested_url", 5) {
            Err(e) => {
                return Err(e);
            },
            Ok(b) => b,
        };
        let b = match b.add_text_field("method", 6) {
            Err(e) => {
                return Err(e);
            },
            Ok(b) => b,
        };
        let b = match b.add_text_field("requested_uri", 7) {
            Err(e) => {
                return Err(e);
            },
            Ok(b) => b,
        };
        let b = match b.add_text_field("protocol", 8) {
            Err(e) => {
                return Err(e);
            },
            Ok(b) => b,
        };
        let b = match b.add_int_field("status_code", 9) {
            Err(e) => {
                return Err(e);
            },
            Ok(b) => b,
        };
        let b = match b.add_int_field("content_length", 10) {
            Err(e) => {
                return Err(e);
            },
            Ok(b) => b,
        };
        let b = b.add_fixed_value("@version", "1");
        let b = b.add_fixed_value("message", line);
        Ok(LogEvent::from_fields(b.build()))
    }
}

/// Parser for access logs in the NCSA Combined log format: the Common
/// format followed by the quoted referer and user agent, which are
/// grouped in the event under a nested `request_headers` mapping —
/// omitted entirely when both are missing.
#[derive(Debug)]
pub struct CombinedLogLineParser {
    inner: ParserImpl,
}

impl CombinedLogLineParser {
    #[verifier::type_invariant]
    spec fn wf(self) -> bool {
        self.inner.layout == Layout::Combined
    }

    pub fn new() -> (r: Self) {
        CombinedLogLineParser { inner: ParserImpl::new(Layout::Combined) }
    }
}

impl LogLineParser for CombinedLogLineParser {
    open spec fn parse_model(&self, raw: Seq<char>) -> Result<
        Map<Seq<char>, ValueModel>,
        ErrorModel,
    > {
        combined_parse_model(raw)
    }

    fn parse(&self, line: &str) -> (r: RedeyeResult<LogEvent>) {
        proof {
            use_type_invariant(self);
        }
        let line = trim_line(line);
        let b = match self.inner.apply(line) {
            Err(e) => {
                return Err(e);
            },
            Ok(b) => b,
        };
        let b = match b.add_text_field("remote_host", 1) {
            Err(e) => {
                return Err(e);
            },
            Ok(b) => b,
        };
        let b = match b.add_text_field("ident", 2) {
            Err(e) => {
                return Err(e);
            },
            Ok(b) => b,
        };
        let b = match b.add_text_field("remote_user", 3) {
            Err(e) => {
                return Err(e);
            },
            Ok(b) => b,
        };
        let b = match b.add_timestamp_field("@timestamp", 4) {
            Err(e) => {
                return Err(e);
            },
            Ok(b) => b,
        };
        let b = match b.add_text_field("requested_url", 5) {
            Err(e) => {
                return Err(e);
            },
            Ok(b) => b,
        };
        let b = match b.add_text_field("method", 6) {
            Err(e) => {
                return Err(e);
            },
            Ok(b) => b,
        };
        let b = match b.add_text_field("requested_uri", 7) {
            Err(e) => {
                return Err(e);
            },
            Ok(b) => b,
        };
        let b = match b.add_text_field("protocol", 8) {
            Err(e) => {
                return Err(e);
            },
            Ok(b) => b,
        };
        let b = match b.add_int_field("status_code", 9) {
            Err(e) => {
                return Err(e);
            },
            Ok(b) => b,
        };
        let b = match b.add_int_field("content_length", 10) {
            Err(e) => {
                return Err(e);
            },
            Ok(b) => b,
        };
        let b = b.add_mapping_field("request_headers");
        let b = match b.add_text_field("referer", 11) {
            Err(e) => {
                return Err(e);
            },
            Ok(b) => b,
        };
        let b = match b.add_text_field("user_agent", 12) {
            Err(e) => {
                return Err(e);
            },
            Ok(b) => b,
        };
        let b = b.complete_mapping();
        let b = b.add_fixed_value("@version", "1");
        let b = b.add_fixed_value("message", line);
        Ok(LogEvent::from_fields(b.build()))
    }
}

} // verus!
