//! Device addressing, configuration values, and HID++ wire logic for
//! Logitech peripherals, with machine-checked contracts.

pub mod backend;
pub mod backlight;
pub mod binding;
pub mod brand;
pub mod channel;
pub mod chars;
pub mod color;
pub mod config;
pub mod device;
pub mod device_io;
pub mod device_order;
pub mod hid;
pub mod inventory;
pub mod locale;
pub mod pairing;
pub mod registry;
pub mod reprog_controls;
pub mod session;
pub mod single_instance;
pub mod text;
pub mod thumbwheel;
pub mod transport;
pub mod write;
