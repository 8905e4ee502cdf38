use redeye::buf::{flush_due, LogBuffer, NeedFlush};
use redeye::enrich::LineParser;
use redeye::send::{commit_allowed, sender_poll_step, BackPressureSender, CommitPoll, ReadyPoll, SendStep};
use redeye::types::RedeyeError;

#[test]
fn test_buffer_flush_threshold_signal() {
    let mut buf: LogBuffer<u64> = LogBuffer::new(3);

    assert_eq!(NeedFlush::No, buf.push(10));
    assert_eq!(NeedFlush::No, buf.push(20));
    assert_eq!(NeedFlush::Yes, buf.push(30));

    let batch = buf.flush();
    assert_eq!(vec![10, 20, 30], batch);

    // logically empty afterwards: an immediate flush yields an empty
    // batch, not an absent one
    let empty = buf.flush();
    assert!(empty.is_empty());
}

#[test]
fn test_buffer_keeps_arrival_order_across_threshold() {
    let mut buf: LogBuffer<String> = LogBuffer::with_buf_size(2, 4);

    assert_eq!(NeedFlush::No, buf.push("a".to_string()));
    assert_eq!(NeedFlush::Yes, buf.push("b".to_string()));
    // pushes beyond the threshold keep signalling until a flush happens
    assert_eq!(NeedFlush::Yes, buf.push("c".to_string()));

    let batch = buf.flush();
    assert_eq!(vec!["a".to_string(), "b".to_string(), "c".to_string()], batch);

    assert_eq!(NeedFlush::No, buf.push("d".to_string()));
    assert_eq!(vec!["d".to_string()], buf.flush());
}

#[test]
fn test_buffer_default_is_empty() {
    let mut buf: LogBuffer<u8> = Default::default();
    assert!(buf.flush().is_empty());
}

#[test]
fn test_flush_due_on_either_condition() {
    assert!(flush_due(true, NeedFlush::No));
    assert!(flush_due(false, NeedFlush::Yes));
    assert!(flush_due(true, NeedFlush::Yes));
    assert!(!flush_due(false, NeedFlush::No));
}

#[test]
fn test_sender_delivers_within_capacity() {
    let (tx, rx) = std::sync::mpsc::sync_channel::<u32>(2);
    let sender = BackPressureSender::new(tx);

    assert!(sender.send(7).is_ok());
    assert!(sender.send(8).is_ok());
    assert_eq!(7, rx.recv().unwrap());
    assert_eq!(8, rx.recv().unwrap());
}

#[test]
fn test_sender_disconnected_fails_deterministically() {
    let (tx, rx) = std::sync::mpsc::sync_channel::<u32>(1);
    let sender = BackPressureSender::new(tx);
    drop(rx);

    match sender.send(1) {
        Err(RedeyeError::Disconnected) => (),
        v => panic!("Unexpected result: {:?}", v),
    }
    // every further send fails the same way: no silent hang, no other error
    match sender.send(2) {
        Err(RedeyeError::Disconnected) => (),
        v => panic!("Unexpected result: {:?}", v),
    }
}

#[test]
fn test_sender_is_shareable() {
    let (tx, rx) = std::sync::mpsc::sync_channel::<u32>(2);
    let sender = BackPressureSender::new(tx);
    let second = sender.clone();

    assert!(sender.send(1).is_ok());
    assert!(second.send(2).is_ok());
    assert_eq!(1, rx.recv().unwrap());
    assert_eq!(2, rx.recv().unwrap());
}

#[test]
fn test_commit_allowed_only_when_ready() {
    assert!(commit_allowed(ReadyPoll::Ready));
    assert!(!commit_allowed(ReadyPoll::Pending));
    assert!(!commit_allowed(ReadyPoll::Closed));
}

#[test]
fn test_sender_poll_step_table() {
    // first phase: a closed channel fails, a full one suspends
    assert_eq!(SendStep::Fail, sender_poll_step(ReadyPoll::Closed, None));
    assert_eq!(SendStep::Suspend, sender_poll_step(ReadyPoll::Pending, None));

    // second phase: only an accepted value completes; a refusal
    // suspends with the value retained, never an error
    assert_eq!(
        SendStep::Complete,
        sender_poll_step(ReadyPoll::Ready, Some(CommitPoll::Accepted)),
    );
    assert_eq!(
        SendStep::Suspend,
        sender_poll_step(ReadyPoll::Ready, Some(CommitPoll::Rejected)),
    );
    assert_eq!(
        SendStep::Fail,
        sender_poll_step(ReadyPoll::Ready, Some(CommitPoll::Closed)),
    );
}

#[test]
fn test_line_parser_wraps_plain_text() {
    let parser: LineParser = Default::default();
    let msg = parser.parse_line("plain access log line".to_string()).unwrap();
    assert_eq!("plain access log line", msg.line());
}

#[test]
fn test_error_kind_predicates() {
    assert!(RedeyeError::IoError("boom".to_string()).is_io_error());
    assert!(RedeyeError::SerializationError("boom".to_string()).is_serialization_error());
    assert!(RedeyeError::TimestampParseError("boom".to_string()).is_timestamp_parse_error());
    assert!(RedeyeError::ParseError("boom".to_string()).is_parse_error());
    assert!(!RedeyeError::Disconnected.is_io_error());
    assert!(!RedeyeError::ParseError("boom".to_string()).is_io_error());
}
