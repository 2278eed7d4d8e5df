//! The failures a registry operation can report.

use vstd::prelude::*;

verus! {

/// Why a registry operation failed.
///
/// Every failure is reported to the caller at once; the registry never
/// retries. Each variant carries a descriptive detail: for `NotFound`
/// the unknown session id, for the others the text of the underlying
/// native failure.
#[derive(Debug)]
pub enum PtyError {
    /// An internal lock could not be acquired.
    LockFailure(String),
    /// The session id is not registered.
    NotFound(String),
    /// The native pseudoterminal could not be allocated.
    NativeAllocationFailure(String),
    /// The shell process could not be launched.
    SpawnFailure(String),
    /// A read, write or flush against the terminal failed.
    IoFailure(String),
    /// The native resize call failed.
    ResizeFailure(String),
}

impl PtyError {
    /// The descriptive detail carried by the error.
    pub fn detail(&self) -> (r: &String)
        ensures
            r@ == self.spec_detail(),
    {
        match self {
            PtyError::LockFailure(s) => s,
            PtyError::NotFound(s) => s,
            PtyError::NativeAllocationFailure(s) => s,
            PtyError::SpawnFailure(s) => s,
            PtyError::IoFailure(s) => s,
            PtyError::ResizeFailure(s) => s,
        }
    }

    /// The detail as a sequence of characters.
    pub open spec fn spec_detail(&self) -> Seq<char> {
        match self {
            PtyError::LockFailure(s) => s@,
            PtyError::NotFound(s) => s@,
            PtyError::NativeAllocationFailure(s) => s@,
            PtyError::SpawnFailure(s) => s@,
            PtyError::IoFailure(s) => s@,
            PtyError::ResizeFailure(s) => s@,
        }
    }
}

} // verus!
