use redeye::buf::{LogBuffer, NeedFlush};
use redeye::parser::{CombinedLogLineParser, CommonLogLineParser, LogLineParser};
use redeye::types::{LogField, LogFieldValue, RedeyeError};

const COMMON_LINE: &str =
    "127.0.0.1 - frank [10/Oct/2000:13:55:36 -0700] \"GET /index.html HTTP/1.0\" 200 2326";

fn mapping_get<'a>(fields: &'a [LogField], name: &str) -> Option<&'a LogFieldValue> {
    fields.iter().rev().find(|f| f.name == name).map(|f| &f.value)
}

#[test]
fn test_common_parser_round_trip() {
    let parser = CommonLogLineParser::new();
    let event = parser.parse(COMMON_LINE).unwrap();

    assert_eq!(
        Some(&LogFieldValue::Text("GET /index.html HTTP/1.0".to_string())),
        event.get("requested_url"),
    );
    assert_eq!(Some(&LogFieldValue::Int(200)), event.get("status_code"));
    assert_eq!(Some(&LogFieldValue::Int(2326)), event.get("content_length"));
    assert!(event.get("request_headers").is_none());
}

#[test]
fn test_common_parser_all_fields() {
    let parser = CommonLogLineParser::new();
    let event = parser.parse(COMMON_LINE).unwrap();

    assert_eq!(
        Some(&LogFieldValue::Text("127.0.0.1".to_string())),
        event.get("remote_host"),
    );
    assert_eq!(
        Some(&LogFieldValue::Text("frank".to_string())),
        event.get("remote_user"),
    );
    assert_eq!(Some(&LogFieldValue::Text("GET".to_string())), event.get("method"));
    assert_eq!(
        Some(&LogFieldValue::Text("/index.html".to_string())),
        event.get("requested_uri"),
    );
    assert_eq!(
        Some(&LogFieldValue::Text("HTTP/1.0".to_string())),
        event.get("protocol"),
    );
    assert_eq!(Some(&LogFieldValue::Text("1".to_string())), event.get("@version"));
    assert_eq!(
        Some(&LogFieldValue::Text(COMMON_LINE.to_string())),
        event.get("message"),
    );
    match event.get("@timestamp") {
        Some(LogFieldValue::Timestamp(ts)) => {
            assert_eq!(2000, ts.year);
            assert_eq!(10, ts.month);
            assert_eq!(10, ts.day);
            assert_eq!(13, ts.hour);
            assert_eq!(55, ts.minute);
            assert_eq!(36, ts.second);
            assert_eq!(-7 * 3600, ts.offset_seconds);
        }
        v => panic!("Unexpected result: {:?}", v),
    }
}

#[test]
fn test_common_parser_sentinel_fields_absent() {
    let parser = CommonLogLineParser::new();
    let event = parser.parse(COMMON_LINE).unwrap();

    // the ident position holds `-`: the field is absent, not null
    assert!(event.get("ident").is_none());
}

#[test]
fn test_common_parser_trims_whitespace() {
    let parser = CommonLogLineParser::new();
    let padded = format!("  {}\t\n", COMMON_LINE);
    let event = parser.parse(&padded).unwrap();

    assert_eq!(
        Some(&LogFieldValue::Text(COMMON_LINE.to_string())),
        event.get("message"),
    );
}

#[test]
fn test_common_parser_layout_mismatch() {
    let parser = CommonLogLineParser::new();
    let res = parser.parse("  not an access log line ");

    match res {
        Err(RedeyeError::ParseError(s)) => {
            assert_eq!("not an access log line", s);
        }
        v => panic!("Unexpected result: {:?}", v),
    }
    let err = parser.parse("nope").unwrap_err();
    assert!(err.is_parse_error());
    assert!(!err.is_timestamp_parse_error());
}

#[test]
fn test_common_parser_timestamp_error_is_distinct() {
    let parser = CommonLogLineParser::new();
    let line = "127.0.0.1 - frank [asdf] \"GET /index.html HTTP/1.0\" 200 2326";
    let res = parser.parse(line);

    match res {
        Err(RedeyeError::TimestampParseError(s)) => {
            assert_eq!("asdf", s);
        }
        v => panic!("Unexpected result: {:?}", v),
    }
    let err = parser.parse(line).unwrap_err();
    assert!(err.is_timestamp_parse_error());
    assert!(!err.is_parse_error());
}

#[test]
fn test_common_parser_bad_status_code() {
    let parser = CommonLogLineParser::new();
    let line = "127.0.0.1 - frank [10/Oct/2000:13:55:36 -0700] \"GET /index.html HTTP/1.0\" abc 2326";
    match parser.parse(line) {
        Err(RedeyeError::ParseError(s)) => assert_eq!(line, s),
        v => panic!("Unexpected result: {:?}", v),
    }
}

#[test]
fn test_combined_parser_request_headers() {
    let parser = CombinedLogLineParser::new();
    let line = format!(
        "{} \"http://www.example.com/start.html\" \"Mozilla/4.08 [en] (Win98; I ;Nav)\"",
        COMMON_LINE
    );
    let event = parser.parse(&line).unwrap();

    match event.get("request_headers") {
        Some(LogFieldValue::Mapping(headers)) => {
            assert_eq!(
                Some(&LogFieldValue::Text("http://www.example.com/start.html".to_string())),
                mapping_get(headers, "referer"),
            );
            assert_eq!(
                Some(&LogFieldValue::Text("Mozilla/4.08 [en] (Win98; I ;Nav)".to_string())),
                mapping_get(headers, "user_agent"),
            );
        }
        v => panic!("Unexpected result: {:?}", v),
    }
    assert_eq!(Some(&LogFieldValue::Int(200)), event.get("status_code"));
}

#[test]
fn test_combined_parser_empty_headers_omitted() {
    let parser = CombinedLogLineParser::new();
    let line = format!("{} \"-\" \"-\"", COMMON_LINE);
    let event = parser.parse(&line).unwrap();

    // both nested fields are `-`: no request_headers key at all
    assert!(event.get("request_headers").is_none());
    assert_eq!(Some(&LogFieldValue::Int(2326)), event.get("content_length"));
}

#[test]
fn test_combined_parser_one_header_present() {
    let parser = CombinedLogLineParser::new();
    let line = format!("{} \"-\" \"curl/7.1\"", COMMON_LINE);
    let event = parser.parse(&line).unwrap();

    match event.get("request_headers") {
        Some(LogFieldValue::Mapping(headers)) => {
            assert!(mapping_get(headers, "referer").is_none());
            assert_eq!(
                Some(&LogFieldValue::Text("curl/7.1".to_string())),
                mapping_get(headers, "user_agent"),
            );
        }
        v => panic!("Unexpected result: {:?}", v),
    }
}

#[test]
fn test_combined_parser_rejects_common_line() {
    let parser = CombinedLogLineParser::new();
    match parser.parse(COMMON_LINE) {
        Err(RedeyeError::ParseError(s)) => assert_eq!(COMMON_LINE, s),
        v => panic!("Unexpected result: {:?}", v),
    }
}

#[test]
fn test_event_fields_exposes_entries() {
    let parser = CommonLogLineParser::new();
    let event = parser.parse(COMMON_LINE).unwrap();
    let fields = event.fields();

    assert!(fields.iter().any(|f| f.name == "remote_host"));
    assert!(!fields.iter().any(|f| f.name == "ident"));
}

#[test]
fn test_common_parser_empty_line() {
    let parser = CommonLogLineParser::new();
    match parser.parse("   \t ") {
        Err(RedeyeError::ParseError(s)) => assert_eq!("", s),
        v => panic!("Unexpected result: {:?}", v),
    }
}

#[test]
fn test_common_parser_tab_separated_fields() {
    let parser = CommonLogLineParser::new();
    let line = "10.0.0.5\t-\talice\t[10/Oct/2000:13:55:36 -0700]\t\"POST /submit HTTP/1.1\"\t201\t12";
    let event = parser.parse(line).unwrap();

    assert_eq!(
        Some(&LogFieldValue::Text("10.0.0.5".to_string())),
        event.get("remote_host"),
    );
    assert_eq!(Some(&LogFieldValue::Int(201)), event.get("status_code"));
    assert_eq!(Some(&LogFieldValue::Text("POST".to_string())), event.get("method"));
}

#[test]
fn test_parsed_events_flow_through_buffer() {
    let parser = CommonLogLineParser::new();
    let mut buf = LogBuffer::new(2);

    let first = parser.parse(COMMON_LINE).unwrap();
    let second = parser
        .parse("10.0.0.5 - - [11/Oct/2000:08:01:02 +0000] \"GET /a HTTP/1.1\" 404 -")
        .unwrap();

    assert_eq!(NeedFlush::No, buf.push(first));
    assert_eq!(NeedFlush::Yes, buf.push(second));

    let batch = buf.flush();
    assert_eq!(2, batch.len());
    assert_eq!(Some(&LogFieldValue::Int(200)), batch[0].get("status_code"));
    assert_eq!(Some(&LogFieldValue::Int(404)), batch[1].get("status_code"));
    // the `-` content length of the second record is absent
    assert!(batch[1].get("content_length").is_none());
    assert!(batch[1].get("remote_user").is_none());
}

#[test]
fn test_common_parser_no_sentinels_all_fields_present() {
    let parser = CommonLogLineParser::new();
    let line = "127.0.0.1 employee frank [10/Oct/2000:13:55:36 -0700] \"GET /index.html HTTP/1.0\" 200 2326";
    let event = parser.parse(line).unwrap();

    for name in [
        "remote_host",
        "ident",
        "remote_user",
        "@timestamp",
        "requested_url",
        "method",
        "requested_uri",
        "protocol",
        "status_code",
        "content_length",
        "@version",
        "message",
    ] {
        assert!(event.get(name).is_some(), "missing field {}", name);
    }
    assert_eq!(Some(&LogFieldValue::Text("employee".to_string())), event.get("ident"));
}
