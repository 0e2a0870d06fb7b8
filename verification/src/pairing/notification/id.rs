//! Notification sub-IDs the receiver emits during pairing.

use vstd::prelude::*;

verus! {

/// A device linked to, or dropped from, the receiver.
pub const DEVICE_CONNECTION: u8 = 0x41;

/// Unifying pairing lock state changed.
pub const UNIFYING_LOCK: u8 = 0x4a;

/// Bolt passkey to present to the user.
pub const PASSKEY_REQUEST: u8 = 0x4d;

/// Bolt discovery frame (address or name).
pub const DEVICE_DISCOVERY: u8 = 0x4f;

/// Bolt discovery status.
pub const DISCOVERY_STATUS: u8 = 0x53;

/// Bolt pairing status.
pub const PAIRING_STATUS: u8 = 0x54;

} // verus!
