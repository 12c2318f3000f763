//! The JSON grammar itself is not implemented here: parsing and printing are
//! done by the `serde_json` crate. This module holds every call into it, each
//! with the contract that the rest of the library relies on.

use vstd::prelude::*;

verus! {

/// A parsed JSON document: `serde_json::Value`. Its inside is not visible to
/// the verifier; the library only carries such a value from the parser to the
/// printers and to the caller.
#[verifier::external_type_specification]
#[verifier::external_body]
pub struct ExValue(serde_json::Value);

/// `Clone::clone` of `serde_json::Value`, which the crate derives: the copy
/// is the same document.
pub assume_specification[ <serde_json::Value as Clone>::clone ](value: &serde_json::Value) -> (copy:
    serde_json::Value)
    ensures
        copy == *value,
;

/// What the parser reports about a text that is not a JSON document.
#[derive(Debug, Clone)]
pub struct ParseError {
    /// The parser's own description of the fault.
    pub message: String,
    /// Line of the fault; the first line is line 1.
    pub line: usize,
    /// Column of the fault within its line. The first character of a line
    /// is in column 1; a fault found right after a line break, before any
    /// character of the new line, is in column 0.
    pub column: usize,
}

/// Why a document could not be printed, in the words of what failed.
#[derive(Debug, Clone)]
pub enum PrintError {
    /// The serializer failed; the text is its error's.
    Serialize(String),
    /// What the serializer wrote was not UTF-8; the text is the error of
    /// the conversion into a string.
    Encoding(String),
}

/// The mathematical content of a [`PrintError`].
pub enum PrintFault {
    Serialize(Seq<char>),
    Encoding(Seq<char>),
}

impl View for PrintError {
    type V = PrintFault;

    open spec fn view(&self) -> PrintFault {
        match *self {
            PrintError::Serialize(text) => PrintFault::Serialize(text@),
            PrintError::Encoding(text) => PrintFault::Encoding(text@),
        }
    }
}

/// The mathematical content of a [`ParseError`].
pub struct ParseReport {
    pub message: Seq<char>,
    pub line: nat,
    pub column: nat,
}

impl View for ParseError {
    type V = ParseReport;

    open spec fn view(&self) -> ParseReport {
        ParseReport { message: self.message@, line: self.line as nat, column: self.column as nat }
    }
}

/// The view of a parser result: the document as it is, the error by its view.
pub open spec fn parsed_view(parsed: Result<serde_json::Value, ParseError>) -> Result<
    serde_json::Value,
    ParseReport,
> {
    match parsed {
        Ok(value) => Ok(value),
        Err(error) => Err(error@),
    }
}

/// The view of what the pretty printer gave.
pub open spec fn pretty_view(printed: Result<String, PrintError>) -> Result<Seq<char>, PrintFault> {
    match printed {
        Ok(text) => Ok(text@),
        Err(error) => Err(error@),
    }
}

/// The view of a printer result whose failure is a text.
pub open spec fn printed_view(printed: Result<String, String>) -> Result<Seq<char>, Seq<char>> {
    match printed {
        Ok(text) => Ok(text@),
        Err(error) => Err(error@),
    }
}

/// The result of parsing `text` as one JSON document: the document, or the
/// parser's report of the first fault.
pub uninterp spec fn json_parse(text: Seq<char>) -> Result<serde_json::Value, ParseReport>;

/// The result of printing `value` with one member or element per line, each
/// nesting level indented by one more copy of `indent`: the text, or what
/// failed and the words of its error.
pub uninterp spec fn json_pretty(value: serde_json::Value, indent: Seq<char>) -> Result<
    Seq<char>,
    PrintFault,
>;

/// The result of printing `value` without any insignificant whitespace: the
/// text, or the printer's description of why it could not be produced.
pub uninterp spec fn json_compact(value: serde_json::Value) -> Result<Seq<char>, Seq<char>>;

/// Calls `serde_json::from_str` for a `serde_json::Value`. The parser reads a
/// text in only one way, so the result is a function of the text: it is
/// [`json_parse`] of it. On failure the error's `Display` text, `line()` and
/// `column()` are copied into a [`ParseError`].
#[verifier::external_body]
pub(crate) fn parse(input: &str) -> (parsed: Result<serde_json::Value, ParseError>)
    ensures
        parsed_view(parsed) == json_parse(input@),
{
    match serde_json::from_str::<serde_json::Value>(input) {
        Ok(value) => Ok(value),
        Err(error) => Err(
            ParseError { message: error.to_string(), line: error.line(), column: error.column() },
        ),
    }
}

/// Serializes `value` through a `serde_json::Serializer` that writes into a
/// byte vector with a `serde_json::ser::PrettyFormatter` made by
/// `with_indent(indent)`, then turns the bytes into a `String`. The output
/// depends on `value` and `indent` alone: it is [`json_pretty`] of them.
///
/// The call succeeds: the serializer of a `serde_json::Value` fails only
/// where its writer does, which a byte vector never does, and it writes
/// nothing but UTF-8 between copies of `indent`, which is UTF-8 too.
#[verifier::external_body]
pub(crate) fn to_pretty(value: &serde_json::Value, indent: &str) -> (printed: Result<
    String,
    PrintError,
>)
    ensures
        pretty_view(printed) == json_pretty(*value, indent@),
        printed is Ok,
{
    let formatter = serde_json::ser::PrettyFormatter::with_indent(indent.as_bytes());
    let mut buf = Vec::new();
    let mut serializer = serde_json::Serializer::with_formatter(&mut buf, formatter);
    match serde::Serialize::serialize(value, &mut serializer) {
        Ok(()) => match String::from_utf8(buf) {
            Ok(text) => Ok(text),
            Err(error) => Err(PrintError::Encoding(error.to_string())),
        },
        Err(error) => Err(PrintError::Serialize(error.to_string())),
    }
}

/// Calls `serde_json::to_string` on `value`. The output depends on `value`
/// alone: it is [`json_compact`] of it; on failure the error's `Display`
/// text is returned.
///
/// The call succeeds: the serializer of a `serde_json::Value` fails only
/// where its writer does, and `to_string` writes into a byte vector.
#[verifier::external_body]
pub(crate) fn to_compact(value: &serde_json::Value) -> (printed: Result<String, String>)
    ensures
        printed_view(printed) == json_compact(*value),
        printed is Ok,
{
    match serde_json::to_string(value) {
        Ok(text) => Ok(text),
        Err(error) => Err(error.to_string()),
    }
}

} // verus!
