//! The read path: a bounded read of a session's output, and the rule
//! that turns the outcome of a timed wait for it into the caller's
//! result.
//!
//! A read from the terminal may block indefinitely, so the caller is
//! expected to run [`blocking_read_chunk`] on a short-lived helper
//! thread, wait at most [`READ_TIMEOUT_MS`] milliseconds for its
//! outcome, and hand what it observed to [`finish_read`]. A wait that
//! runs out is not an error: it means no data is available now, and the
//! abandoned read's eventual outcome is discarded.

use vstd::prelude::*;

use crate::errors::PtyError;
use crate::native;
use crate::native::PtyReaderHandle;

verus! {

/// How long a caller waits for a read's outcome, in milliseconds.
pub const READ_TIMEOUT_MS: u64 = 100;

/// The size of the buffer a single read fills at most, in bytes.
pub const READ_BUFFER_BYTES: usize = 8192;

/// What a caller observed of a read it waited on: the read's own
/// outcome, or the end of the wait.
pub enum ReadPoll {
    /// The read finished in time, with this outcome.
    Completed(Result<Vec<u8>, PtyError>),
    /// The wait ran out first.
    TimedOut,
}

/// A zeroed buffer of the size a single read may fill.
pub fn fresh_read_buffer() -> (v: Vec<u8>)
    ensures
        v@.len() == READ_BUFFER_BYTES,
        forall|i: int| 0 <= i < v@.len() ==> v@[i] == 0u8,
{
    let v: Vec<u8> = vec![0u8; READ_BUFFER_BYTES];
    v
}

/// One bounded read of the session's output stream: blocks until some
/// output is available, the stream ends, or the read fails, and returns
/// exactly the bytes read — at most [`READ_BUFFER_BYTES`] of them, and
/// none on end of stream.
pub fn blocking_read_chunk(reader: &PtyReaderHandle) -> (r: Result<Vec<u8>, PtyError>)
    ensures
        r matches Ok(b) ==> b@.len() <= READ_BUFFER_BYTES,
        r matches Err(e) ==> e is LockFailure || e is IoFailure,
{
    let mut buf = fresh_read_buffer();
    match native::read_into(reader, &mut buf) {
        Ok(n) => {
            buf.truncate(n);
            Ok(buf)
        },
        Err(e) => Err(e),
    }
}

/// Turns what the caller observed into the result a read reports: a
/// completed read's outcome is passed on verbatim, and a wait that ran
/// out yields an empty result — no data available now — never an error.
pub fn finish_read(poll: ReadPoll) -> (r: Result<Vec<u8>, PtyError>)
    ensures
        poll matches ReadPoll::Completed(outcome) ==> r == outcome,
        poll is TimedOut ==> (r matches Ok(b) && b@ == Seq::<u8>::empty()),
{
    match poll {
        ReadPoll::Completed(outcome) => outcome,
        ReadPoll::TimedOut => Ok(Vec::new()),
    }
}

} // verus!
