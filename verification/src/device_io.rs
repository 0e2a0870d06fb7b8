//! Process activity gate for host HID access: whether opening a node or
//! sending a request is currently allowed, as a host lifecycle observer
//! (sleep, lock) sets it.

use vstd::prelude::*;

verus! {

/// Whether device I/O is allowed.
#[derive(Clone, Copy, Debug, PartialEq, Eq, Structural)]
pub enum DeviceIoState {
    /// Opening nodes and sending requests is allowed.
    Allowed,
    /// Device I/O is suspended.
    Suspended,
}

/// The state after suspending device I/O, and whether that changed it.
pub open spec fn spec_suspend(s: DeviceIoState) -> (DeviceIoState, bool) {
    (DeviceIoState::Suspended, s == DeviceIoState::Allowed)
}

/// The state after allowing device I/O again, and whether that changed it.
pub open spec fn spec_resume(s: DeviceIoState) -> (DeviceIoState, bool) {
    (DeviceIoState::Allowed, s == DeviceIoState::Suspended)
}

impl DeviceIoState {
    /// Suspend device I/O. Returns whether this changed the state.
    pub fn suspend(&mut self) -> (changed: bool)
        ensures
            (*final(self), changed) == spec_suspend(*old(self)),
    {
        if *self == DeviceIoState::Suspended {
            return false;
        }
        *self = DeviceIoState::Suspended;
        true
    }

    /// Allow device I/O again. Returns whether this changed the state.
    pub fn resume(&mut self) -> (changed: bool)
        ensures
            (*final(self), changed) == spec_resume(*old(self)),
    {
        if *self == DeviceIoState::Allowed {
            return false;
        }
        *self = DeviceIoState::Allowed;
        true
    }

    /// Whether opening a node or sending a request is allowed.
    pub fn allows_io(&self) -> (b: bool)
        ensures
            b == (*self == DeviceIoState::Allowed),
    {
        *self == DeviceIoState::Allowed
    }
}

/// Repeated transitions coalesce: a second suspend (or resume) in a row
/// reports no change; and resuming after suspending always allows device I/O again
/// and reports the change.
pub proof fn lemma_gate_transitions_coalesce(s: DeviceIoState)
    ensures
        !spec_suspend(spec_suspend(s).0).1,
        !spec_resume(spec_resume(s).0).1,
        spec_resume(spec_suspend(s).0) == (DeviceIoState::Allowed, true),
        spec_suspend(spec_resume(s).0) == (DeviceIoState::Suspended, true),
{
}

} // verus!
