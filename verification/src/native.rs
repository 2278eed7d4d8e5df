//! The native pseudoterminal, behind trusted wrappers.
//!
//! Everything the registry asks of the operating system goes through the
//! handle types and functions of this module. The handles are opaque:
//! they hold trait objects of `portable_pty` and of `std::io`, which the
//! verifier cannot look into, so each struct is declared with
//! `#[verifier::external_body]` and each function states only what the
//! wrapped call's documentation promises.

use vstd::prelude::*;

use crate::errors::PtyError;
use portable_pty::{native_pty_system, CommandBuilder, PtySize};
use std::io::{Read, Write};
use std::sync::{Arc, Mutex};

verus! {

/// A freshly opened pseudoterminal pair: the subordinate side a shell is
/// spawned onto, and the controlling side that drives it.
#[verifier::external_body]
pub struct PtyPairHandle {
    pair: portable_pty::PtyPair,
}

/// The exclusive writer stream of a session's terminal.
#[verifier::external_body]
pub struct PtyWriterHandle {
    writer: Box<dyn Write + Send>,
}

/// The readable output stream of a session's terminal, behind a
/// reference-counted lock so that a clone of the handle can be moved to
/// a helper thread while the registry keeps its own.
#[verifier::external_body]
pub struct PtyReaderHandle {
    reader: Arc<Mutex<Box<dyn Read + Send>>>,
}

/// The native control handle of a session's terminal, which supports
/// changing its dimensions. Dropping it releases the pseudoterminal and
/// is expected to end the shell behind it.
#[verifier::external_body]
pub struct PtyMasterHandle {
    master: Box<dyn portable_pty::MasterPty + Send>,
}

/// Relies on portable_pty::native_pty_system and PtySystem::openpty:
/// allocates a pseudoterminal pair with the given dimensions and no
/// pixel geometry.
#[verifier::external_body]
pub fn open_native_pty(rows: u16, cols: u16) -> (r: Result<PtyPairHandle, String>) {
    let system = native_pty_system();
    match system.openpty(PtySize { rows, cols, pixel_width: 0, pixel_height: 0 }) {
        Ok(pair) => Ok(PtyPairHandle { pair }),
        Err(e) => Err(format!("{}", e)),
    }
}

/// Relies on portable_pty::CommandBuilder and SlavePty::spawn_command:
/// launches `shell` with working directory `cwd` attached to the pair's
/// subordinate side. The child handle is dropped; the process keeps
/// running behind the terminal.
#[verifier::external_body]
pub fn spawn_shell(pair: &PtyPairHandle, shell: &String, cwd: &String) -> (r: Result<
    (),
    String,
>) {
    let mut cmd = CommandBuilder::new(shell);
    cmd.cwd(cwd);
    match pair.pair.slave.spawn_command(cmd) {
        Ok(_child) => Ok(()),
        Err(e) => Err(format!("{}", e)),
    }
}

/// Relies on portable_pty::MasterPty::try_clone_reader: a readable
/// handle onto the terminal's output stream.
#[verifier::external_body]
pub fn clone_native_reader(pair: &PtyPairHandle) -> (r: Result<PtyReaderHandle, String>) {
    match pair.pair.master.try_clone_reader() {
        Ok(reader) => Ok(PtyReaderHandle { reader: Arc::new(Mutex::new(reader)) }),
        Err(e) => Err(format!("{}", e)),
    }
}

/// Relies on portable_pty::MasterPty::take_writer: the writable handle
/// onto the terminal's input stream, which may be taken only once.
#[verifier::external_body]
pub fn take_native_writer(pair: &PtyPairHandle) -> (r: Result<PtyWriterHandle, String>) {
    match pair.pair.master.take_writer() {
        Ok(writer) => Ok(PtyWriterHandle { writer }),
        Err(e) => Err(format!("{}", e)),
    }
}

/// Keeps only the controlling side of the pair; the subordinate side is
/// dropped once the shell is attached to it.
#[verifier::external_body]
pub fn into_master(pair: PtyPairHandle) -> (r: PtyMasterHandle) {
    PtyMasterHandle { master: pair.pair.master }
}

/// Relies on portable_pty::MasterPty::resize: tells the kernel the new
/// dimensions, with no pixel geometry, and signals the child.
#[verifier::external_body]
pub fn resize_native(master: &mut PtyMasterHandle, cols: u16, rows: u16) -> (r: Result<
    (),
    String,
>) {
    match master.master.resize(PtySize { rows, cols, pixel_width: 0, pixel_height: 0 }) {
        Ok(()) => Ok(()),
        Err(e) => Err(format!("{}", e)),
    }
}

/// Relies on std::io::Write::write_all: writes the whole of `data` to
/// the terminal's input stream or reports the first error.
#[verifier::external_body]
pub fn write_all_bytes(writer: &mut PtyWriterHandle, data: &[u8]) -> (r: Result<(), String>) {
    match writer.writer.write_all(data) {
        Ok(()) => Ok(()),
        Err(e) => Err(format!("{}", e)),
    }
}

/// Relies on std::io::Write::flush: pushes buffered input through to the
/// terminal.
#[verifier::external_body]
pub fn flush_writer(writer: &mut PtyWriterHandle) -> (r: Result<(), String>) {
    match writer.writer.flush() {
        Ok(()) => Ok(()),
        Err(e) => Err(format!("{}", e)),
    }
}

impl PtyReaderHandle {
    /// Relies on std::sync::Arc::clone: a second handle onto the same
    /// output stream.
    #[verifier::external_body]
    pub(crate) fn clone_handle(&self) -> (r: PtyReaderHandle) {
        PtyReaderHandle { reader: Arc::clone(&self.reader) }
    }
}

/// Relies on std::sync::Mutex::lock and std::io::Read::read: blocks
/// until some output is available, the stream ends, or the read fails,
/// and puts what was read at the front of `buf`. std::io::Read promises
/// that the count returned on success is at most `buf`'s length, which
/// is left unchanged. A poisoned lock is reported as `LockFailure`, a
/// failed read as `IoFailure`.
#[verifier::external_body]
pub fn read_into(reader: &PtyReaderHandle, buf: &mut Vec<u8>) -> (r: Result<usize, PtyError>)
    ensures
        final(buf)@.len() == old(buf)@.len(),
        r matches Ok(n) ==> n <= final(buf)@.len(),
        r matches Err(e) ==> e is LockFailure || e is IoFailure,
{
    match reader.reader.lock() {
        Ok(mut guard) => match guard.read(buf.as_mut_slice()) {
            Ok(n) => Ok(n),
            Err(e) => Err(PtyError::IoFailure(format!("{}", e))),
        },
        Err(e) => Err(PtyError::LockFailure(format!("{}", e))),
    }
}

} // verus!
