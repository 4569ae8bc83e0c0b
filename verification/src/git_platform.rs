//! Symlink creation for git tooling inside the secure-exec wasm VM.
//!
//! std's WASI symlink support is behind an unstable feature, and git worktree
//! symlinks are not on the agent's session-turn path inside the VM, so the
//! operation is refused as unsupported.

use vstd::prelude::*;

verus! {

/// The kind of an I/O failure.
#[derive(Debug, Clone, Copy, PartialEq, Eq)]
pub enum IoFailureKind {
    /// The operation is not supported on this platform.
    Unsupported,
}

/// An I/O failure: its kind and its message.
#[derive(Debug, Clone, PartialEq, Eq)]
pub struct IoFailure {
    pub kind: IoFailureKind,
    pub message: String,
}

/// Failures of the git tooling.
#[derive(Debug, Clone, PartialEq, Eq)]
pub enum GitToolingError {
    /// An I/O operation failed.
    Io(IoFailure),
}

/// The message of a refused symlink creation.
pub open spec fn symlink_unsupported_message() -> Seq<char> {
    "symlink creation is not supported in the secure-exec wasm VM"@
}

/// Refuses to create the symlink `destination -> link_target`, whatever the
/// paths: the VM does not support symlink creation.
pub fn create_symlink(source: &str, link_target: &str, destination: &str) -> (r: Result<(), GitToolingError>)
    ensures
        r matches Err(GitToolingError::Io(f)) && f.kind == IoFailureKind::Unsupported
            && f.message@ == symlink_unsupported_message(),
{
    Err(
        GitToolingError::Io(
            IoFailure {
                kind: IoFailureKind::Unsupported,
                message: String::from_str("symlink creation is not supported in the secure-exec wasm VM"),
            },
        ),
    )
}

} // verus!
