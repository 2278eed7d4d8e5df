//! The rule that turns what a caller observed of a timed read into the
//! result the read reports.

use pty_registry::{finish_read, fresh_read_buffer, PtyError, ReadPoll, READ_BUFFER_BYTES};

#[test]
fn timed_out_wait_is_empty_data_not_an_error() {
    let res = finish_read(ReadPoll::TimedOut);
    assert_eq!(res.unwrap(), Vec::<u8>::new());
}

#[test]
fn completed_read_passes_its_bytes_on_verbatim() {
    let bytes = vec![104u8, 105u8, 10u8];
    let res = finish_read(ReadPoll::Completed(Ok(bytes.clone())));
    assert_eq!(res.unwrap(), bytes);
}

#[test]
fn completed_failure_passes_the_error_on() {
    let poll = ReadPoll::Completed(Err(PtyError::IoFailure("stream closed".to_string())));
    match finish_read(poll) {
        Err(PtyError::IoFailure(msg)) => assert_eq!(msg.as_str(), "stream closed"),
        _ => panic!("a completed failure must be reported as that failure"),
    }
}

#[test]
fn read_buffer_has_the_documented_size_and_is_zeroed() {
    let buf = fresh_read_buffer();
    assert_eq!(buf.len(), READ_BUFFER_BYTES);
    assert_eq!(buf.len(), 8192);
    assert!(buf.iter().all(|b| *b == 0));
}
