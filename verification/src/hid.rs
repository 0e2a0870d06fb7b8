//! HID++ addressing, read-back snapshots and command vocabularies that need
//! no device I/O.

pub mod dpi;
pub mod error;
pub mod light;
pub mod pairing;
pub mod route;
pub mod smartshift;
