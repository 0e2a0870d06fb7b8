//! Binding vocabulary: action-catalog categories, gesture-button directions
//! and validated application launch targets.

pub mod action;
pub mod application_target;
pub mod category;
pub mod gesture;
pub mod value;
