//! The result of validating a text.

use vstd::prelude::*;

verus! {

/// The result of validating a text.
#[derive(Debug)]
pub enum ValidationResult {
    Success {
        /// The parsed document.
        data: serde_json::Value,
        /// Length of the validated text in bytes.
        size: usize,
    },
    Error {
        /// What is wrong with the text.
        message: String,
        /// Line of the fault, counted from 1; absent when the text was
        /// rejected before parsing.
        line: Option<usize>,
        /// Column of the fault within its line, as the parser counts it:
        /// from 1, and 0 for a fault found right after a line break. Absent
        /// when the text was rejected before parsing.
        column: Option<usize>,
    },
}

/// The mathematical content of a [`ValidationResult`].
pub enum ValidationOutcome {
    Success { data: serde_json::Value, size: nat },
    Error { message: Seq<char>, line: Option<nat>, column: Option<nat> },
}

/// An optional machine integer as an optional natural number.
pub open spec fn position_view(position: Option<usize>) -> Option<nat> {
    match position {
        Some(n) => Some(n as nat),
        None => None,
    }
}

impl View for ValidationResult {
    type V = ValidationOutcome;

    open spec fn view(&self) -> ValidationOutcome {
        match *self {
            ValidationResult::Success { data, size } => ValidationOutcome::Success {
                data,
                size: size as nat,
            },
            ValidationResult::Error { message, line, column } => ValidationOutcome::Error {
                message: message@,
                line: position_view(line),
                column: position_view(column),
            },
        }
    }
}

impl Clone for ValidationResult {
    fn clone(&self) -> (copy: Self)
        ensures
            copy == *self,
    {
        match self {
            ValidationResult::Success { data, size } => ValidationResult::Success {
                data: data.clone(),
                size: *size,
            },
            ValidationResult::Error { message, line, column } => ValidationResult::Error {
                message: message.clone(),
                line: *line,
                column: *column,
            },
        }
    }
}

} // verus!
