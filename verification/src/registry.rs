//! The session registry: lifecycle, I/O and geometry of shell sessions.

use vstd::prelude::*;

use crate::errors::PtyError;
use crate::native;
use crate::native::{PtyMasterHandle, PtyReaderHandle, PtyWriterHandle};
use crate::store::Store;

verus! {

/// The shell a session is launched with when the caller names none.
pub const DEFAULT_SHELL: &'static str = "/bin/bash";

/// The number of rows every session starts with.
pub const INITIAL_ROWS: u16 = 24;

/// The number of columns every session starts with.
pub const INITIAL_COLS: u16 = 80;

/// The command string a session is resolved to launch: the caller's
/// choice, or the default shell.
pub open spec fn resolved_shell(shell: Option<String>) -> Seq<char> {
    match shell {
        Some(s) => s@,
        None => DEFAULT_SHELL@,
    }
}

/// Two stores agree on every id but `except`.
pub open spec fn agree_except<V>(
    m0: Map<Seq<char>, V>,
    m1: Map<Seq<char>, V>,
    except: Seq<char>,
) -> bool {
    m0.remove(except) == m1.remove(except)
}

/// A session's I/O facet: the exclusive writer onto the terminal's input
/// and the shared handle onto its output.
pub struct SessionIo {
    writer: PtyWriterHandle,
    reader: PtyReaderHandle,
    written: Ghost<Seq<u8>>,
}

impl SessionIo {
    /// Everything successfully written to the session's input stream
    /// since creation, in order.
    pub closed spec fn written(&self) -> Seq<u8> {
        self.written@
    }
}

/// A session's metadata: working directory and resolved launch command.
/// Immutable after creation.
pub struct SessionMeta {
    pub cwd: String,
    pub command: Option<String>,
}

/// A session's resize facet: the native control handle, together with
/// the dimensions it was last set to.
pub struct ResizeEntry {
    pub master: PtyMasterHandle,
    pub cols: u16,
    pub rows: u16,
}

/// The registry of pseudoterminal sessions.
///
/// Three keyed stores hold a session's facets: I/O handles, metadata,
/// and resize handles. At every operation boundary an id is registered
/// in all three stores or in none.
pub struct PtyRegistry {
    io: Store<SessionIo>,
    meta: Store<SessionMeta>,
    resize: Store<ResizeEntry>,
}

impl PtyRegistry {
    /// The I/O store's content.
    pub closed spec fn io_map(&self) -> Map<Seq<char>, SessionIo> {
        self.io@
    }

    /// The metadata store's content.
    pub closed spec fn meta_map(&self) -> Map<Seq<char>, SessionMeta> {
        self.meta@
    }

    /// The resize store's content.
    pub closed spec fn resize_map(&self) -> Map<Seq<char>, ResizeEntry> {
        self.resize@
    }

    /// The registry's invariant: the stores are well formed and hold
    /// exactly the same ids.
    pub closed spec fn wf(&self) -> bool {
        &&& self.io.wf()
        &&& self.meta.wf()
        &&& self.resize.wf()
        &&& self.meta@.dom() == self.io@.dom()
        &&& self.resize@.dom() == self.io@.dom()
    }

    /// An empty registry.
    pub fn new() -> (r: PtyRegistry)
        ensures
            r.wf(),
            r.io_map() == Map::<Seq<char>, SessionIo>::empty(),
            r.meta_map() == Map::<Seq<char>, SessionMeta>::empty(),
            r.resize_map() == Map::<Seq<char>, ResizeEntry>::empty(),
    {
        let r = PtyRegistry { io: Store::new(), meta: Store::new(), resize: Store::new() };
        proof {
            assert(r.meta@.dom() =~= r.io@.dom());
            assert(r.resize@.dom() =~= r.io@.dom());
        }
        r
    }

    /// Creates a session: allocates a pseudoterminal with the initial
    /// geometry, spawns the resolved shell in `cwd` on its subordinate
    /// side, and registers the new handles in all three stores. An id
    /// already in use silently has its entries replaced. On failure the
    /// registry is left exactly as it was, and the error names the step
    /// that failed: pseudoterminal allocation, shell launch, or
    /// acquisition of the reader or writer stream.
    pub fn create_session(&mut self, id: String, cwd: String, shell: Option<String>) -> (r:
        Result<(), PtyError>)
        requires
            old(self).wf(),
            id@.len() > 0,
        ensures
            final(self).wf(),
            r matches Err(e) ==> *final(self) == *old(self) && (e is NativeAllocationFailure
                || e is SpawnFailure || e is IoFailure),
            r is Ok ==> {
                &&& final(self).io_map().dom() == old(self).io_map().dom().insert(id@)
                &&& final(self).meta_map().contains_key(id@)
                &&& final(self).meta_map()[id@].cwd@ == cwd@
                &&& final(self).meta_map()[id@].command matches Some(c) && c@ == resolved_shell(
                    shell,
                )
                &&& final(self).io_map()[id@].written() == Seq::<u8>::empty()
                &&& final(self).resize_map()[id@].cols == INITIAL_COLS
                &&& final(self).resize_map()[id@].rows == INITIAL_ROWS
                &&& agree_except(old(self).io_map(), final(self).io_map(), id@)
                &&& agree_except(old(self).meta_map(), final(self).meta_map(), id@)
                &&& agree_except(old(self).resize_map(), final(self).resize_map(), id@)
            },
    {
        let pair = match native::open_native_pty(INITIAL_ROWS, INITIAL_COLS) {
            Ok(p) => p,
            Err(msg) => {
                return Err(PtyError::NativeAllocationFailure(msg));
            },
        };
        let shell_cmd: String = match shell {
            Some(s) => s,
            None => DEFAULT_SHELL.to_owned(),
        };
        if let Err(msg) = native::spawn_shell(&pair, &shell_cmd, &cwd) {
            return Err(PtyError::SpawnFailure(msg));
        }
        let reader = match native::clone_native_reader(&pair) {
            Ok(rd) => rd,
            Err(msg) => {
                return Err(PtyError::IoFailure(msg));
            },
        };
        let writer = match native::take_native_writer(&pair) {
            Ok(w) => w,
            Err(msg) => {
                return Err(PtyError::IoFailure(msg));
            },
        };
        let master = native::into_master(pair);
        self.io.insert(id.clone(), SessionIo { writer, reader, written: Ghost(Seq::empty()) });
        self.meta.insert(id.clone(), SessionMeta { cwd, command: Some(shell_cmd) });
        self.resize.insert(id, ResizeEntry { master, cols: INITIAL_COLS, rows: INITIAL_ROWS });
        proof {
            assert(self.io@.dom() =~= old(self).io@.dom().insert(id@));
            assert(self.meta@.dom() =~= self.io@.dom());
            assert(self.resize@.dom() =~= self.io@.dom());
            assert(self.io@.remove(id@) =~= old(self).io@.remove(id@));
            assert(self.meta@.remove(id@) =~= old(self).meta@.remove(id@));
            assert(self.resize@.remove(id@) =~= old(self).resize@.remove(id@));
        }
        Ok(())
    }

    /// Writes `data` verbatim to the session's input stream and flushes
    /// it, so the bytes reach the shell promptly: on success the
    /// session's record of written bytes grows by exactly `data`, in
    /// order. `NotFound` exactly when the id is not in the I/O store; a
    /// failed write or flush is an `IoFailure`. No other session is
    /// touched.
    pub fn write_to_session(&mut self, id: &str, data: &[u8]) -> (r: Result<(), PtyError>)
        requires
            old(self).wf(),
        ensures
            final(self).wf(),
            !old(self).io_map().contains_key(id@) ==> (r matches Err(e) && e is NotFound
                && *final(self) == *old(self)),
            old(self).io_map().contains_key(id@) ==> (r is Ok || (r matches Err(e)
                && e is IoFailure)),
            old(self).io_map().contains_key(id@) && r is Ok ==> final(self).io_map()[id@].written()
                == old(self).io_map()[id@].written() + data@,
            final(self).io_map().dom() == old(self).io_map().dom(),
            agree_except(old(self).io_map(), final(self).io_map(), id@),
            final(self).meta_map() == old(self).meta_map(),
            final(self).resize_map() == old(self).resize_map(),
    {
        let key: String = id.to_owned();
        if !self.io.contains(&key) {
            return Err(PtyError::NotFound(key));
        }
        let mut io = self.io.remove(&key).unwrap();
        let r: Result<(), PtyError> = match native::write_all_bytes(&mut io.writer, data) {
            Ok(()) => {
                io.written = Ghost(io.written@ + data@);
                match native::flush_writer(&mut io.writer) {
                    Ok(()) => Ok(()),
                    Err(msg) => Err(PtyError::IoFailure(msg)),
                }
            },
            Err(msg) => Err(PtyError::IoFailure(msg)),
        };
        self.io.insert(key, io);
        proof {
            assert(self.io@.dom() =~= old(self).io@.dom());
            assert(self.io@.remove(id@) =~= old(self).io@.remove(id@));
        }
        r
    }

    /// A fresh handle onto the session's output stream, for a read to be
    /// performed on, possibly from another thread. `NotFound` exactly
    /// when the id is not in the I/O store. The registry is not changed.
    pub fn session_reader(&self, id: &str) -> (r: Result<PtyReaderHandle, PtyError>)
        requires
            self.wf(),
        ensures
            r is Ok <==> self.io_map().contains_key(id@),
            r matches Err(e) ==> e is NotFound,
    {
        let key: String = id.to_owned();
        match self.io.get(&key) {
            Some(io) => Ok(io.reader.clone_handle()),
            None => Err(PtyError::NotFound(key)),
        }
    }

    /// Sets the session's terminal to `cols` columns by `rows` rows,
    /// immediately and synchronously. `NotFound` exactly when the id is
    /// not in the resize store; a failed native call is a
    /// `ResizeFailure` and leaves the recorded dimensions as they were.
    /// On success a later dimension query reflects exactly `cols` by
    /// `rows`. No other session is touched.
    pub fn resize_session(&mut self, id: &str, cols: u16, rows: u16) -> (r: Result<(), PtyError>)
        requires
            old(self).wf(),
        ensures
            final(self).wf(),
            !old(self).resize_map().contains_key(id@) ==> (r matches Err(e) && e is NotFound
                && *final(self) == *old(self)),
            old(self).resize_map().contains_key(id@) ==> (r is Ok || (r matches Err(e)
                && e is ResizeFailure)),
            r is Ok ==> final(self).resize_map().contains_key(id@) && final(self).resize_map()[id@].cols
                == cols && final(self).resize_map()[id@].rows == rows,
            old(self).resize_map().contains_key(id@) && r is Err ==> final(self).resize_map()[id@].cols
                == old(self).resize_map()[id@].cols && final(self).resize_map()[id@].rows == old(
                self,
            ).resize_map()[id@].rows,
            final(self).resize_map().dom() == old(self).resize_map().dom(),
            agree_except(old(self).resize_map(), final(self).resize_map(), id@),
            final(self).io_map() == old(self).io_map(),
            final(self).meta_map() == old(self).meta_map(),
    {
        let key: String = id.to_owned();
        if !self.resize.contains(&key) {
            return Err(PtyError::NotFound(key));
        }
        let mut entry = self.resize.remove(&key).unwrap();
        let r: Result<(), PtyError> = match native::resize_native(&mut entry.master, cols, rows) {
            Ok(()) => {
                entry.cols = cols;
                entry.rows = rows;
                Ok(())
            },
            Err(msg) => Err(PtyError::ResizeFailure(msg)),
        };
        self.resize.insert(key, entry);
        proof {
            assert(self.resize@.dom() =~= old(self).resize@.dom());
            assert(self.resize@.remove(id@) =~= old(self).resize@.remove(id@));
        }
        r
    }

    /// The dimensions the session's terminal was last set to: the
    /// initial geometry at creation, or those of the last successful
    /// resize.
    pub fn session_dims(&self, id: &str) -> (r: Option<(u16, u16)>)
        requires
            self.wf(),
        ensures
            r is Some <==> self.resize_map().contains_key(id@),
            r matches Some(d) ==> d.0 == self.resize_map()[id@].cols && d.1
                == self.resize_map()[id@].rows,
    {
        let key: String = id.to_owned();
        match self.resize.get(&key) {
            Some(entry) => Some((entry.cols, entry.rows)),
            None => None,
        }
    }

    /// Removes the session's entries from all three stores, dropping the
    /// retained handles, which releases the pseudoterminal and is
    /// expected to end the shell behind it. Removal is best-effort and
    /// always succeeds: an unknown or already-killed id is not an error.
    pub fn kill_session(&mut self, id: &str) -> (r: Result<(), PtyError>)
        requires
            old(self).wf(),
        ensures
            final(self).wf(),
            r is Ok,
            final(self).io_map() == old(self).io_map().remove(id@),
            final(self).meta_map() == old(self).meta_map().remove(id@),
            final(self).resize_map() == old(self).resize_map().remove(id@),
    {
        let key: String = id.to_owned();
        let _ = self.io.remove(&key);
        let _ = self.meta.remove(&key);
        let _ = self.resize.remove(&key);
        proof {
            assert(self.meta@.dom() =~= self.io@.dom());
            assert(self.resize@.dom() =~= self.io@.dom());
        }
        Ok(())
    }

    /// Every registered session id, each exactly once, in no promised
    /// order.
    pub fn list_sessions(&self) -> (r: Vec<String>)
        requires
            self.wf(),
        ensures
            forall|i: int| 0 <= i < r@.len() ==> self.io_map().contains_key(#[trigger] r@[i]@),
            forall|k: Seq<char>| #[trigger]
                self.io_map().contains_key(k) ==> exists|i: int|
                    0 <= i < r@.len() && r@[i]@ == k,
            forall|i: int, j: int| 0 <= i < j < r@.len() ==> r@[i]@ != r@[j]@,
    {
        self.io.keys()
    }

    /// Whether the id is present in the I/O store.
    pub fn session_exists(&self, id: &str) -> (r: bool)
        requires
            self.wf(),
        ensures
            r == self.io_map().contains_key(id@),
    {
        let key: String = id.to_owned();
        self.io.contains(&key)
    }

    /// The session's working directory and launch command, if the id is
    /// known to the metadata store.
    pub fn get_session_info(&self, id: &str) -> (r: Option<(String, Option<String>)>)
        requires
            self.wf(),
        ensures
            r is Some <==> self.meta_map().contains_key(id@),
            r matches Some(info) ==> {
                &&& info.0@ == self.meta_map()[id@].cwd@
                &&& match (info.1, self.meta_map()[id@].command) {
                    (Some(a), Some(b)) => a@ == b@,
                    (None, None) => true,
                    _ => false,
                }
            },
    {
        let key: String = id.to_owned();
        match self.meta.get(&key) {
            Some(m) => {
                let command: Option<String> = match &m.command {
                    Some(c) => Some(c.clone()),
                    None => None,
                };
                Some((m.cwd.clone(), command))
            },
            None => None,
        }
    }

    /// Tears the registry down: every session is removed and its handles
    /// dropped, as `kill_session` would do one by one.
    pub fn shutdown_all(&mut self)
        requires
            old(self).wf(),
        ensures
            final(self).wf(),
            final(self).io_map() == Map::<Seq<char>, SessionIo>::empty(),
            final(self).meta_map() == Map::<Seq<char>, SessionMeta>::empty(),
            final(self).resize_map() == Map::<Seq<char>, ResizeEntry>::empty(),
    {
        self.io.clear();
        self.meta.clear();
        self.resize.clear();
        proof {
            assert(self.meta@.dom() =~= self.io@.dom());
            assert(self.resize@.dom() =~= self.io@.dom());
        }
    }
}

/// A well-formed registry keeps its stores consistent: an id is
/// registered in all three stores — I/O, metadata and resize — or in
/// none, so the lookups the operations make agree on which sessions
/// exist.
pub proof fn lemma_stores_consistent(r: &PtyRegistry, id: Seq<char>)
    requires
        r.wf(),
    ensures
        r.io_map().contains_key(id) == r.meta_map().contains_key(id),
        r.io_map().contains_key(id) == r.resize_map().contains_key(id),
{
}

/// Killing a session is idempotent: removing an id from a store a second
/// time changes nothing, and the id is absent afterwards — so a repeated
/// `kill_session` also succeeds and `session_exists` stays false.
pub proof fn lemma_kill_idempotent<V>(m: Map<Seq<char>, V>, id: Seq<char>)
    ensures
        m.remove(id).remove(id) =~= m.remove(id),
        !m.remove(id).contains_key(id),
{
}

/// Removing one id leaves a store agreeing with itself on every other
/// id: what `kill_session` ensures implies `agree_except` on each store.
pub proof fn lemma_remove_agrees_except<V>(m: Map<Seq<char>, V>, a: Seq<char>)
    ensures
        agree_except(m, m.remove(a), a),
{
    assert(m.remove(a) =~= m.remove(a).remove(a));
}

/// Sessions are isolated: an operation addressed to `a` — one whose
/// ensures give `agree_except` on a store — neither adds, removes, nor
/// changes the entry of any other id `b`.
pub proof fn lemma_sessions_isolated<V>(
    m0: Map<Seq<char>, V>,
    m1: Map<Seq<char>, V>,
    a: Seq<char>,
    b: Seq<char>,
)
    requires
        agree_except(m0, m1, a),
        a != b,
    ensures
        m0.contains_key(b) <==> m1.contains_key(b),
        m0.contains_key(b) ==> m1[b] == m0[b],
{
    assert(m0.remove(a).contains_key(b) == m0.contains_key(b));
    assert(m1.remove(a).contains_key(b) == m1.contains_key(b));
    if m0.contains_key(b) {
        assert(m0.remove(a)[b] == m0[b]);
        assert(m1.remove(a)[b] == m1[b]);
    }
}

} // verus!
