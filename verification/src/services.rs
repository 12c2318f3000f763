//! The operations of the library.

pub mod file_io;
pub mod input;
pub mod json_formatter;
pub mod json_parser;
pub mod logger;

