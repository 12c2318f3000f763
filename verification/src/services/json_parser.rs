//! Validation of a text as a JSON document.

use crate::json::{json_parse, parse, parsed_view, ParseError, ParseReport};
use crate::models::validation::{ValidationOutcome, ValidationResult};
use crate::services::input::{byte_len, check_input, rejection, utf8_len, MAX_JSON_SIZE};
use crate::text::{
    chars_contain, contains, decimal, is_blank, lemma_contains_middle, push_decimal, to_chars,
};
use vstd::prelude::*;

verus! {

/// The kinds of fault that the messages tell apart.
#[derive(Debug, Clone, Copy, PartialEq, Eq, Structural)]
pub enum ErrorCategory {
    /// A comma before a closing bracket.
    TrailingComma,
    /// No comma between two members.
    MissingSeparator,
    /// No value where one must stand.
    MissingValue,
    /// The text ends inside a value.
    UnexpectedEnd,
    /// An object key that is not a string.
    NonStringKey,
    /// A backslash followed by a character that cannot follow it.
    InvalidEscape,
    /// A raw control character inside a string.
    ControlCharacter,
    /// Any other fault.
    Other,
}

/// The category of a fault, read off the parser's description of it. The
/// phrases are tried in this order and the first one found decides.
pub open spec fn category_of(raw: Seq<char>) -> ErrorCategory {
    if contains(raw, "trailing comma"@) {
        ErrorCategory::TrailingComma
    } else if contains(raw, "expected `,` or `}`"@) || contains(raw, "expected comma"@) {
        ErrorCategory::MissingSeparator
    } else if contains(raw, "expected value"@) {
        ErrorCategory::MissingValue
    } else if contains(raw, "EOF while parsing"@) {
        ErrorCategory::UnexpectedEnd
    } else if contains(raw, "key must be a string"@) {
        ErrorCategory::NonStringKey
    } else if contains(raw, "invalid escape"@) {
        ErrorCategory::InvalidEscape
    } else if contains(raw, "control character"@) {
        ErrorCategory::ControlCharacter
    } else {
        ErrorCategory::Other
    }
}

/// The words "(line L, column C)" that close a message.
pub open spec fn position_note(line: nat, column: nat) -> Seq<char> {
    "（第 "@ + decimal(line) + " 行，第 "@ + decimal(column) + " 列）"@
}

/// The words "(line L)" that close the message about an unexpected end.
pub open spec fn line_note(line: nat) -> Seq<char> {
    "（第 "@ + decimal(line) + " 行）"@
}

/// The sentence that describes a category; for [`ErrorCategory::Other`] the
/// words that introduce the parser's own description.
pub open spec fn category_text(category: ErrorCategory) -> Seq<char> {
    match category {
        ErrorCategory::TrailingComma => "JSON 中存在多余的逗号"@,
        ErrorCategory::MissingSeparator => "缺少逗号分隔符"@,
        ErrorCategory::MissingValue => "缺少值或引号不完整"@,
        ErrorCategory::UnexpectedEnd => "JSON 结构不完整，可能缺少括号"@,
        ErrorCategory::NonStringKey => "对象的键必须是字符串"@,
        ErrorCategory::InvalidEscape => "包含非法的转义序列"@,
        ErrorCategory::ControlCharacter => "包含非法的控制字符"@,
        ErrorCategory::Other => "JSON 解析错误："@,
    }
}

/// The message for a fault that the parser describes as `raw` and reports at
/// `line` and `column`: the sentence of its category, followed by the line
/// and, except after an unexpected end, the column. A fault of no known
/// category is described in the parser's own words.
pub open spec fn error_message(raw: Seq<char>, line: nat, column: nat) -> Seq<char> {
    match category_of(raw) {
        ErrorCategory::UnexpectedEnd => category_text(ErrorCategory::UnexpectedEnd) + line_note(
            line,
        ),
        ErrorCategory::Other => category_text(ErrorCategory::Other) + raw + position_note(
            line,
            column,
        ),
        category => category_text(category) + position_note(line, column),
    }
}

/// The outcome of validating a text of `size` bytes that the parser answered
/// with `parsed`.
pub open spec fn validation_of(size: nat, parsed: Result<serde_json::Value, ParseReport>)
    -> ValidationOutcome {
    match parsed {
        Ok(data) => ValidationOutcome::Success { data, size },
        Err(report) => ValidationOutcome::Error {
            message: error_message(report.message, report.line, report.column),
            line: Some(report.line),
            column: Some(report.column),
        },
    }
}

/// The outcome of validating `text`.
pub open spec fn validation_outcome(text: Seq<char>) -> ValidationOutcome {
    match rejection(text) {
        Some(message) => ValidationOutcome::Error { message, line: None, column: None },
        None => validation_of(utf8_len(text), json_parse(text)),
    }
}

/// Validation succeeds on exactly the texts that are within the size limit,
/// are not blank and are accepted by the parser; it then returns the
/// document that the parser made of the text, with the text's length in
/// bytes.
pub proof fn lemma_validation_succeeds_iff_accepted(text: Seq<char>)
    ensures
        validation_outcome(text) is Success <==> {
            &&& utf8_len(text) <= MAX_JSON_SIZE
            &&& !is_blank(text)
            &&& json_parse(text) is Ok
        },
        validation_outcome(text) is Success ==> validation_outcome(text) == (
            ValidationOutcome::Success { data: json_parse(text)->Ok_0, size: utf8_len(text) }
        ),
{
}

/// Validation reports a position exactly when the parser was asked and
/// refused the text: a text rejected for its size or for being blank has
/// neither line nor column, a text refused by the parser has both, and they
/// are the parser's.
pub proof fn lemma_position_comes_from_parser(text: Seq<char>)
    requires
        validation_outcome(text) is Error,
    ensures
        rejection(text) is Some ==> validation_outcome(text)->line is None && validation_outcome(
            text,
        )->column is None,
        rejection(text) is None ==> json_parse(text) is Err && validation_outcome(text)->line
            == Some(json_parse(text)->Err_0.line) && validation_outcome(text)->column == Some(
            json_parse(text)->Err_0.column,
        ),
{
}

/// Every message for a fault names the line, and every message but the one
/// about an unexpected end names the column.
pub proof fn lemma_message_names_position(raw: Seq<char>, line: nat, column: nat)
    ensures
        contains(error_message(raw, line, column), decimal(line)),
        category_of(raw) != ErrorCategory::UnexpectedEnd ==> contains(
            error_message(raw, line, column),
            decimal(column),
        ),
{
    let message = error_message(raw, line, column);
    let opening = "（第 "@;
    let between = " 行，第 "@;
    let closing = " 列）"@;
    match category_of(raw) {
        ErrorCategory::UnexpectedEnd => {
            let before = category_text(ErrorCategory::UnexpectedEnd) + opening;
            lemma_contains_middle(before, decimal(line), " 行）"@);
            assert(message =~= before + decimal(line) + " 行）"@);
        },
        ErrorCategory::Other => {
            let before = category_text(ErrorCategory::Other) + raw + opening;
            lemma_contains_middle(before, decimal(line), between + decimal(column) + closing);
            assert(message =~= before + decimal(line) + (between + decimal(column) + closing));
            lemma_contains_middle(before + decimal(line) + between, decimal(column), closing);
            assert(message =~= before + decimal(line) + between + decimal(column) + closing);
        },
        category => {
            let before = category_text(category) + opening;
            lemma_contains_middle(before, decimal(line), between + decimal(column) + closing);
            assert(message =~= before + decimal(line) + (between + decimal(column) + closing));
            lemma_contains_middle(before + decimal(line) + between, decimal(column), closing);
            assert(message =~= before + decimal(line) + between + decimal(column) + closing);
        },
    }
}

/// Finds the category of a fault from the parser's description of it.
pub fn classify(raw: &str) -> (category: ErrorCategory)
    ensures
        category == category_of(raw@),
{
    let chars = to_chars(raw);
    if chars_contain(&chars, &to_chars("trailing comma")) {
        ErrorCategory::TrailingComma
    } else if chars_contain(&chars, &to_chars("expected `,` or `}`")) || chars_contain(
        &chars,
        &to_chars("expected comma"),
    ) {
        ErrorCategory::MissingSeparator
    } else if chars_contain(&chars, &to_chars("expected value")) {
        ErrorCategory::MissingValue
    } else if chars_contain(&chars, &to_chars("EOF while parsing")) {
        ErrorCategory::UnexpectedEnd
    } else if chars_contain(&chars, &to_chars("key must be a string")) {
        ErrorCategory::NonStringKey
    } else if chars_contain(&chars, &to_chars("invalid escape")) {
        ErrorCategory::InvalidEscape
    } else if chars_contain(&chars, &to_chars("control character")) {
        ErrorCategory::ControlCharacter
    } else {
        ErrorCategory::Other
    }
}

/// Appends "(line L, column C)" to `out`.
pub fn push_position(out: &mut String, line: usize, column: usize)
    ensures
        final(out)@ == old(out)@ + position_note(line as nat, column as nat),
{
    out.append("（第 ");
    push_decimal(out, line as u64);
    out.append(" 行，第 ");
    push_decimal(out, column as u64);
    out.append(" 列）");
    assert(out@ =~= old(out)@ + position_note(line as nat, column as nat));
}

fn category_sentence(category: ErrorCategory) -> (sentence: &'static str)
    ensures
        sentence@ == category_text(category),
{
    match category {
        ErrorCategory::TrailingComma => "JSON 中存在多余的逗号",
        ErrorCategory::MissingSeparator => "缺少逗号分隔符",
        ErrorCategory::MissingValue => "缺少值或引号不完整",
        ErrorCategory::UnexpectedEnd => "JSON 结构不完整，可能缺少括号",
        ErrorCategory::NonStringKey => "对象的键必须是字符串",
        ErrorCategory::InvalidEscape => "包含非法的转义序列",
        ErrorCategory::ControlCharacter => "包含非法的控制字符",
        ErrorCategory::Other => "JSON 解析错误：",
    }
}

/// Turns the parser's report of a fault into the message shown to the user.
pub fn format_error_message(error: &ParseError) -> (message: String)
    ensures
        message@ == error_message(error@.message, error@.line, error@.column),
{
    let category = classify(error.message.as_str());
    let mut message = String::from_str(category_sentence(category));
    match category {
        ErrorCategory::UnexpectedEnd => {
            message.append("（第 ");
            push_decimal(&mut message, error.line as u64);
            message.append(" 行）");
            assert(message@ =~= category_text(category) + line_note(error.line as nat));
        },
        ErrorCategory::Other => {
            message.append(error.message.as_str());
            push_position(&mut message, error.line, error.column);
        },
        _ => {
            push_position(&mut message, error.line, error.column);
        },
    }
    message
}

/// The result of validating a text of `size` bytes, given what the parser
/// answered.
pub fn validation_result(size: usize, parsed: Result<serde_json::Value, ParseError>) -> (result:
    ValidationResult)
    ensures
        result@ == validation_of(size as nat, parsed_view(parsed)),
{
    match parsed {
        Ok(data) => ValidationResult::Success { data, size },
        Err(error) => {
            let message = format_error_message(&error);
            ValidationResult::Error {
                message,
                line: Some(error.line),
                column: Some(error.column),
            }
        },
    }
}

/// Validates `input` as one JSON document.
///
/// An input over the size limit or a blank one is rejected without a
/// position. Any other input is parsed: a document is returned with the
/// input's length in bytes, a fault with its message, line and column.
pub fn validate_json(input: &str) -> (result: ValidationResult)
    ensures
        result@ == validation_outcome(input@),
{
    match check_input(input) {
        Some(message) => ValidationResult::Error { message, line: None, column: None },
        None => validation_result(byte_len(input), parse(input)),
    }
}

} // verus!
