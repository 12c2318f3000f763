//! Validation, pretty-printing and minification of JSON text, and the rules
//! of an append-only operation log with rotation and statistics.
//!
//! Every function states what it returns over a mathematical model of its
//! arguments, and the verifier proves that its body does so. What is taken
//! on trust is kept in as few places as possible: the parser, the printers
//! and the `Clone` of `serde_json` (module [`json`]), the clock as `chrono`
//! reads it (module [`services::logger`]), and two functions of the
//! standard library that the verifier has no specification for,
//! `String::push` (module [`text`]) and the `Clone` of `PathBuf` (module
//! [`services::logger`]).
//!
//! - [`services::json_parser`] validates a text and words the parser's
//!   faults for the user.
//! - [`services::json_formatter`] pretty-prints and minifies.
//! - [`services::logger`] decides what is written to the log and when it is
//!   rotated, and turns what is read back into records and figures. It
//!   never touches a file: its caller does.
//! - [`services::file_io`] holds the rules for imported and exported files.
//! - [`services::input`] holds the checks that every input passes first.
//! - [`text`] holds the text primitives under all of them.

pub mod json;
pub mod models;
pub mod services;
pub mod text;
