//! Options and results of pretty-printing and minification.

use vstd::prelude::*;

verus! {

/// How a document is pretty-printed.
#[derive(Debug, Clone)]
pub struct FormattingOptions {
    /// Spaces per nesting level: 2 or 4.
    pub indent: u8,
    /// Whether one line feed follows the output.
    pub trailing_newline: bool,
}

pub fn default_indent() -> (indent: u8)
    ensures
        indent == 2,
{
    2
}

pub fn default_trailing_newline() -> (trailing_newline: bool)
    ensures
        trailing_newline,
{
    true
}

impl Default for FormattingOptions {
    fn default() -> (options: Self)
        ensures
            options.indent == 2,
            options.trailing_newline,
    {
        Self { indent: default_indent(), trailing_newline: default_trailing_newline() }
    }
}

/// The result of pretty-printing or minifying a text.
#[derive(Debug, Clone)]
pub enum FormattingResult {
    Success {
        /// The printed document.
        formatted: String,
        /// Length of `formatted` in bytes.
        size: usize,
    },
    Error {
        /// Why the text could not be printed.
        message: String,
    },
}

/// The mathematical content of a [`FormattingResult`].
pub enum FormattingOutcome {
    Success { formatted: Seq<char>, size: nat },
    Error { message: Seq<char> },
}

impl View for FormattingResult {
    type V = FormattingOutcome;

    open spec fn view(&self) -> FormattingOutcome {
        match *self {
            FormattingResult::Success { formatted, size } => FormattingOutcome::Success {
                formatted: formatted@,
                size: size as nat,
            },
            FormattingResult::Error { message } => FormattingOutcome::Error { message: message@ },
        }
    }
}

} // verus!
