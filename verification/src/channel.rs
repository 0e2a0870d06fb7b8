//! HID++ channels owned by the persistent inventory enumerator.

pub mod pool;
pub mod registry;
