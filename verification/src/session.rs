//! Device sessions that temporarily take over controls on a device and hand
//! them back afterwards.

pub mod capture_restore;
pub mod host_switch;
pub mod liveness;
