//! User configuration values: keyboard triggers and application settings.

pub mod document;
pub mod file;
pub mod key_trigger;
pub mod settings;
