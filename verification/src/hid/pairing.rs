//! Wire-format types for the Bolt/Unifying pairing flow.

use vstd::prelude::*;

verus! {

/// Selects which receiver a pairing operation targets.
#[derive(Clone, Debug)]
pub enum ReceiverSelector {
    /// The first supported receiver found.
    First,
    /// A specific Bolt receiver by its unique ID.
    BoltUid(String),
}

/// A single click in a pointer passkey sequence.
#[derive(Clone, Copy, PartialEq, Eq, Debug, Structural)]
pub enum Click {
    /// Left mouse button click.
    Left,
    /// Right mouse button click.
    Right,
}

/// How the user authenticates the device during Bolt pairing.
#[derive(Clone, Debug, PartialEq, Eq)]
pub enum PasskeyMethod {
    /// Type these digits on the new keyboard, then press Enter.
    Keyboard(String),
    /// On the new pointer, perform this left/right click sequence, then
    /// click both buttons together.
    Pointer {
        /// Numeric passkey shown by the device.
        passkey: String,
        /// MSB-first click sequence derived from the passkey.
        clicks: Vec<Click>,
    },
}

/// Errors raised by pairing operations.
#[derive(Clone, Debug)]
pub enum PairingError {
    /// HID transport failure.
    Hid(String),
    /// No supported receiver matched the requested selector.
    ReceiverNotFound,
    /// HID++ receiver register read/write failed.
    Register(String),
    /// Pairing flow exceeded its timeout.
    Timeout,
    /// Receiver reported a device-specific pairing error code.
    Device(u8),
    /// Pairing flow was cancelled by the caller.
    Cancelled,
    /// The command is not valid for the active receiver family.
    UnsupportedCommand,
    /// A receiver notification failed to decode; authentication cannot
    /// proceed safely.
    MalformedNotification(&'static str),
}

} // verus!
