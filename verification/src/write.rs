//! Device writes: the decisions and encodings behind each HID++ or raw HID
//! write, and the classification of the failures they report.

pub mod error;
pub mod fn_lock;
pub mod haptic;
pub mod hires_wheel;
pub mod litra;
pub mod smartshift;
