//! A registry of shell sessions running behind OS pseudoterminals.
//!
//! Each session is addressed by a caller-chosen string id and owns three
//! facets: an I/O handle for writing to and reading from the terminal,
//! immutable metadata (working directory and launch command), and the
//! native control handle used to change the terminal's dimensions.
//! The registry keeps the three keyed stores consistent: an id is
//! present in all of them or in none. Reads from the terminal may block,
//! so the read path hands out a shareable reader handle and the rule for
//! interpreting a timed wait on it; the caller runs the wait itself.

use vstd::prelude::*;

mod errors;
mod native;
mod reading;
mod registry;
mod store;

verus! {

pub use errors::PtyError;
pub use native::PtyMasterHandle;
pub use native::PtyReaderHandle;
pub use native::PtyWriterHandle;
pub use reading::blocking_read_chunk;
pub use reading::finish_read;
pub use reading::fresh_read_buffer;
pub use reading::ReadPoll;
pub use reading::READ_BUFFER_BYTES;
pub use reading::READ_TIMEOUT_MS;
pub use registry::agree_except;
pub use registry::lemma_kill_idempotent;
pub use registry::lemma_remove_agrees_except;
pub use registry::lemma_sessions_isolated;
pub use registry::lemma_stores_consistent;
pub use registry::resolved_shell;
pub use registry::PtyRegistry;
pub use registry::ResizeEntry;
pub use registry::SessionIo;
pub use registry::SessionMeta;
pub use registry::DEFAULT_SHELL;
pub use registry::INITIAL_COLS;
pub use registry::INITIAL_ROWS;

} // verus!
