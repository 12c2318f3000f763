//! The values exchanged with callers.

pub mod formatting;
pub mod log_entry;
pub mod validation;

