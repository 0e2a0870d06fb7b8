//! Single-instance process guard: the outcome of locking a role's lock file.
//!
//! A process takes an exclusive, non-blocking lock on a named file under the
//! user's data directory; holding it keeps a second process of the same role
//! from running. The operating system releases the lock when the process
//! exits, so a crashed run leaves nothing to clean up.

use vstd::prelude::*;

use crate::text::push_str;

verus! {

/// Failure acquiring the single-instance lock. `AlreadyRunning` is the
/// expected "another copy is open" signal; every other variant is
/// filesystem trouble. Paths are shown as text, I/O failures as messages.
#[derive(Debug, Clone)]
pub enum InstanceError {
    /// The lock file's directory could not be resolved.
    Path(String),
    /// Creating or opening the lock file failed.
    Open { path: String, source: String },
    /// Another process of the same role already holds the lock.
    AlreadyRunning { path: String },
    /// The lock call itself failed, as opposed to the lock being held.
    LockFailed { path: String, source: String },
}

/// The message an instance error is shown with.
pub open spec fn instance_error_message(e: InstanceError) -> Seq<char> {
    match e {
        InstanceError::Path(_) => "could not resolve lock path"@,
        InstanceError::Open { path, .. } => "could not open lock file at "@ + path@,
        InstanceError::AlreadyRunning { path } => "another instance already holds the lock at "@ + path@,
        InstanceError::LockFailed { path, .. } => "lock attempt at "@ + path@ + " failed"@,
    }
}

impl InstanceError {
    /// The human-readable message of this error.
    pub fn to_string(&self) -> (s: String)
        ensures
            s@ == instance_error_message(*self),
    {
        let mut s = String::new();
        match self {
            InstanceError::Path(_) => push_str(&mut s, "could not resolve lock path"),
            InstanceError::Open { path, .. } => {
                push_str(&mut s, "could not open lock file at ");
                push_str(&mut s, path.as_str());
            },
            InstanceError::AlreadyRunning { path } => {
                push_str(&mut s, "another instance already holds the lock at ");
                push_str(&mut s, path.as_str());
            },
            InstanceError::LockFailed { path, .. } => {
                push_str(&mut s, "lock attempt at ");
                push_str(&mut s, path.as_str());
                push_str(&mut s, " failed");
            },
        }
        s
    }

    /// Whether this is the polite "another copy is open" signal, as opposed
    /// to filesystem trouble.
    pub fn is_already_running(&self) -> (b: bool)
        ensures
            b == (*self is AlreadyRunning),
    {
        match self {
            InstanceError::AlreadyRunning { .. } => true,
            _ => false,
        }
    }
}

/// How a non-blocking lock attempt ended.
#[derive(Debug, Clone)]
pub enum LockAttempt {
    /// The lock is ours.
    Acquired,
    /// Another process holds it.
    WouldBlock,
    /// The lock call failed with this message.
    Failed(String),
}

/// The result of locking the lock file at `path`.
pub fn lock_outcome(path: String, attempt: LockAttempt) -> (r: Result<(), InstanceError>)
    ensures
        match attempt {
            LockAttempt::Acquired => r is Ok,
            LockAttempt::WouldBlock => r matches Err(InstanceError::AlreadyRunning { path: p }) && p@ == path@,
            LockAttempt::Failed(m) => r matches Err(InstanceError::LockFailed { path: p, source }) && p@ == path@ && source@ == m@,
        },
{
    match attempt {
        LockAttempt::Acquired => Ok(()),
        LockAttempt::WouldBlock => Err(InstanceError::AlreadyRunning { path }),
        LockAttempt::Failed(source) => Err(InstanceError::LockFailed { path, source }),
    }
}

} // verus!
