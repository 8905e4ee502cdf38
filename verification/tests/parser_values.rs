use redeye::builder::{parse_int_value, parse_text_value, parse_timestamp};
use redeye::capture::Captures;
use redeye::types::{LogFieldValue, RedeyeError};
use chrono::{Datelike, Timelike};

fn single_val_capture(line: &str) -> Captures {
    Captures::new(vec![line.to_string(), line.to_string()])
}

#[test]
fn test_captures_positions() {
    let c = single_val_capture("127.0.0.1");
    assert_eq!(2, c.len());
    assert_eq!(Some(&"127.0.0.1".to_string()), c.get(0));
    assert_eq!(Some(&"127.0.0.1".to_string()), c.get(1));
    assert_eq!(None, c.get(2));
}

#[test]
fn test_parse_timestamp_missing() {
    let line = "127.0.0.1";
    let c = single_val_capture(line);
    let res = parse_timestamp(&c, 2 /* shouldn't exist */, line);

    match res {
        Err(RedeyeError::ParseError(_)) => (),
        v => panic!("Unexpected result: {:?}", v),
    }
}

#[test]
fn test_parse_timestamp_empty_field() {
    let line = "-";
    let c = single_val_capture(line);
    let res = parse_timestamp(&c, 1, line);

    match res {
        Ok(None) => (),
        v => panic!("Unexpected result: {:?}", v),
    }
}

#[test]
fn test_parse_timestamp_bad_format() {
    let line = "asdf";
    let c = single_val_capture(line);
    let res = parse_timestamp(&c, 1, line);

    match res {
        Err(RedeyeError::TimestampParseError(_)) => (),
        v => panic!("Unexpected result: {:?}", v),
    }
}

#[test]
fn test_parse_timestamp_success() {
    let line = "11/Oct/2000:13:55:36 -0700";
    let c = single_val_capture(line);
    let res = parse_timestamp(&c, 1, line);

    match res {
        Ok(Some(LogFieldValue::Timestamp(ts))) => {
            assert_eq!(2000, ts.year);
            assert_eq!(10, ts.month);
            assert_eq!(11, ts.day);
            assert_eq!(13, ts.hour);
            assert_eq!(55, ts.minute);
            assert_eq!(36, ts.second);
            assert_eq!(-7 * 3600, ts.offset_seconds);
        }
        v => panic!("Unexpected result: {:?}", v),
    }
}

#[test]
fn test_parse_text_value_missing() {
    let line = "127.0.0.1";
    let c = single_val_capture(line);
    let res = parse_text_value(&c, 2 /* shouldn't exist */, line);

    match res {
        Err(RedeyeError::ParseError(_)) => (),
        v => panic!("Unexpected result: {:?}", v),
    }
}

#[test]
fn test_parse_text_value_empty_field() {
    let line = "-";
    let c = single_val_capture(line);
    let res = parse_text_value(&c, 1, line);

    match res {
        Ok(None) => (),
        v => panic!("Unexpected result: {:?}", v),
    }
}

#[test]
fn test_parse_text_value_success() {
    let line = "127.0.0.1";
    let c = single_val_capture(line);
    let res = parse_text_value(&c, 1, line);

    match res {
        Ok(Some(LogFieldValue::Text(s))) => {
            assert_eq!("127.0.0.1".to_owned(), s);
        }
        v => panic!("Unexpected result: {:?}", v),
    }
}

#[test]
fn test_parse_int_value_missing() {
    let line = "200";
    let c = single_val_capture(line);
    let res = parse_int_value(&c, 2 /* shouldn't exist */, line);

    match res {
        Err(RedeyeError::ParseError(_)) => (),
        v => panic!("Unexpected result: {:?}", v),
    }
}

#[test]
fn test_parse_int_value_empty_field() {
    let line = "-";
    let c = single_val_capture(line);
    let res = parse_int_value(&c, 1, line);

    match res {
        Ok(None) => (),
        v => panic!("Unexpected result: {:?}", v),
    }
}

#[test]
fn test_parse_int_value_bad_format() {
    let line = "asdf";
    let c = single_val_capture(line);
    let res = parse_int_value(&c, 1, line);

    match res {
        Err(RedeyeError::ParseError(_)) => (),
        v => panic!("Unexpected result: {:?}", v),
    }
}

#[test]
fn test_parse_int_value_success() {
    let line = "404";
    let c = single_val_capture(line);
    let res = parse_int_value(&c, 1, line);

    match res {
        Ok(Some(LogFieldValue::Int(v))) => {
            assert_eq!(404, v);
        }
        v => panic!("Unexpected result: {:?}", v),
    }
}

#[test]
fn test_parse_int_value_plus_sign_and_zero_padding() {
    let line = "+0042";
    let c = single_val_capture(line);
    let res = parse_int_value(&c, 1, line);

    match res {
        Ok(Some(LogFieldValue::Int(v))) => assert_eq!(42, v),
        v => panic!("Unexpected result: {:?}", v),
    }
}

#[test]
fn test_parse_int_value_at_limits() {
    let max = "18446744073709551615";
    let res = parse_int_value(&single_val_capture(max), 1, max);
    match res {
        Ok(Some(LogFieldValue::Int(v))) => assert_eq!(u64::MAX, v),
        v => panic!("Unexpected result: {:?}", v),
    }

    let over = "18446744073709551616";
    let res = parse_int_value(&single_val_capture(over), 1, over);
    match res {
        Err(RedeyeError::ParseError(s)) => assert_eq!(over, s),
        v => panic!("Unexpected result: {:?}", v),
    }
}

#[test]
fn test_parse_timestamp_calendar_validity() {
    let bad_day = "31/Apr/2000:13:55:36 -0700";
    match parse_timestamp(&single_val_capture(bad_day), 1, bad_day) {
        Err(RedeyeError::TimestampParseError(s)) => assert_eq!(bad_day, s),
        v => panic!("Unexpected result: {:?}", v),
    }

    let leap = "29/Feb/2000:00:00:01 +0000";
    match parse_timestamp(&single_val_capture(leap), 1, leap) {
        Ok(Some(LogFieldValue::Timestamp(ts))) => {
            assert_eq!(29, ts.day);
            assert_eq!(2, ts.month);
        }
        v => panic!("Unexpected result: {:?}", v),
    }

    let not_leap = "29/Feb/1900:00:00:01 +0000";
    match parse_timestamp(&single_val_capture(not_leap), 1, not_leap) {
        Err(RedeyeError::TimestampParseError(_)) => (),
        v => panic!("Unexpected result: {:?}", v),
    }
}

#[test]
fn test_parse_timestamp_agrees_with_chrono() {
    let inputs = [
        "11/Oct/2000:13:55:36 -0700",
        "29/Feb/2000:00:00:00 +0000",
        "5/Jan/1999:23:59:59 +0130",
    ];
    for line in inputs {
        let dt = chrono::DateTime::parse_from_str(line, "%d/%b/%Y:%T %z").unwrap();
        match parse_timestamp(&single_val_capture(line), 1, line) {
            Ok(Some(LogFieldValue::Timestamp(ts))) => {
                assert_eq!(dt.year(), ts.year);
                assert_eq!(dt.month(), ts.month as u32);
                assert_eq!(dt.day(), ts.day as u32);
                assert_eq!(dt.hour(), ts.hour as u32);
                assert_eq!(dt.minute(), ts.minute as u32);
                assert_eq!(dt.second(), ts.second as u32);
                assert_eq!(dt.offset().local_minus_utc(), ts.offset_seconds);
            }
            v => panic!("Unexpected result: {:?}", v),
        }
    }
}
