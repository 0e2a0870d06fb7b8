//! Inventory bookkeeping: what each HID node last reported, and how long a
//! failing node's last answer keeps being served.

pub mod events;
pub mod ledger;
pub mod persist;
pub mod standalone;
