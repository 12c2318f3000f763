//! Pretty-printing and minification of JSON text.

use crate::json::{
    json_compact, json_parse, json_pretty, parse, parsed_view, pretty_view, printed_view,
    to_compact, to_pretty, ParseError, ParseReport, PrintError, PrintFault,
};
use crate::models::formatting::{FormattingOptions, FormattingOutcome, FormattingResult};
use crate::models::validation::ValidationOutcome;
use crate::services::input::{
    byte_len, check_input, empty_input_message, oversize_message, rejection, size_limit_note,
    utf8_len, MAX_JSON_SIZE,
};
use crate::services::json_parser::{position_note, push_position, validation_outcome};
use crate::text::{
    contains, decimal, is_blank, lemma_contains_middle, mebibytes_text, push_decimal,
    push_spaces, spaces,
};
use vstd::prelude::*;

verus! {

/// Whether `indent` is a supported number of spaces per nesting level.
pub open spec fn is_supported_indent(indent: u8) -> bool {
    indent == 2 || indent == 4
}

/// The message for an indentation width that is not supported.
pub open spec fn indent_message(indent: nat) -> Seq<char> {
    "不支持的缩进值 "@ + decimal(indent) + "，仅支持 2 或 4 个空格"@
}

/// The message for a text that the parser refused: the parser's own
/// description, followed by the line and column of the fault.
pub open spec fn parse_failure_message(report: ParseReport) -> Seq<char> {
    "JSON 解析失败: "@ + report.message + position_note(report.line, report.column)
}

/// The words that introduce the description of a failed pretty-print.
pub open spec fn pretty_failure_prefix() -> Seq<char> {
    "JSON 格式化失败: "@
}

/// The words that introduce the description of a failed minification.
pub open spec fn compact_failure_prefix() -> Seq<char> {
    "JSON 压缩失败: "@
}

/// What the pretty printer answered, with a failure put into words: which
/// step failed, then the words of its error.
pub open spec fn described(printed: Result<Seq<char>, PrintFault>) -> Result<
    Seq<char>,
    Seq<char>,
> {
    match printed {
        Ok(text) => Ok(text),
        Err(PrintFault::Serialize(words)) => Err("序列化失败: "@ + words),
        Err(PrintFault::Encoding(words)) => Err("UTF-8 转换失败: "@ + words),
    }
}

/// The outcome for what a printer answered: the text with its length in
/// bytes, or `prefix` followed by the printer's description of its failure.
pub open spec fn printed_outcome(printed: Result<Seq<char>, Seq<char>>, prefix: Seq<char>)
    -> FormattingOutcome {
    match printed {
        Ok(text) => FormattingOutcome::Success { formatted: text, size: utf8_len(text) },
        Err(description) => FormattingOutcome::Error { message: prefix + description },
    }
}

/// `printed` with one line feed after the text, if `trailing_newline` asks
/// for it.
pub open spec fn finished(printed: Result<Seq<char>, Seq<char>>, trailing_newline: bool)
    -> Result<Seq<char>, Seq<char>> {
    match printed {
        Ok(text) => Ok(
            if trailing_newline {
                text.push('\n')
            } else {
                text
            },
        ),
        Err(description) => Err(description),
    }
}

/// The outcome of pretty-printing, given what the parser answered.
pub open spec fn formatting_of(
    parsed: Result<serde_json::Value, ParseReport>,
    options: FormattingOptions,
) -> FormattingOutcome {
    match parsed {
        Ok(value) => printed_outcome(
            finished(
                described(json_pretty(value, spaces(options.indent as nat))),
                options.trailing_newline,
            ),
            pretty_failure_prefix(),
        ),
        Err(report) => FormattingOutcome::Error { message: parse_failure_message(report) },
    }
}

/// The outcome of pretty-printing `text` with `options`.
pub open spec fn formatting_outcome(text: Seq<char>, options: FormattingOptions)
    -> FormattingOutcome {
    match rejection(text) {
        Some(message) => FormattingOutcome::Error { message },
        None => if !is_supported_indent(options.indent) {
            FormattingOutcome::Error { message: indent_message(options.indent as nat) }
        } else {
            formatting_of(json_parse(text), options)
        },
    }
}

/// The outcome of minification, given what the parser answered.
pub open spec fn minification_of(parsed: Result<serde_json::Value, ParseReport>)
    -> FormattingOutcome {
    match parsed {
        Ok(value) => printed_outcome(json_compact(value), compact_failure_prefix()),
        Err(report) => FormattingOutcome::Error { message: parse_failure_message(report) },
    }
}

/// The outcome of minifying `text`.
pub open spec fn minification_outcome(text: Seq<char>) -> FormattingOutcome {
    match rejection(text) {
        Some(message) => FormattingOutcome::Error { message },
        None => minification_of(json_parse(text)),
    }
}

/// A text over the size limit is refused by validation, pretty-printing and
/// minification alike, whatever the options: each returns the same message,
/// which names the limit at its end, and validation gives no position.
pub proof fn lemma_oversize_input_is_rejected(text: Seq<char>, options: FormattingOptions)
    requires
        utf8_len(text) > MAX_JSON_SIZE,
    ensures
        validation_outcome(text) == (ValidationOutcome::Error {
            message: oversize_message(utf8_len(text)),
            line: None,
            column: None,
        }),
        formatting_outcome(text, options) == (FormattingOutcome::Error {
            message: oversize_message(utf8_len(text)),
        }),
        minification_outcome(text) == (FormattingOutcome::Error {
            message: oversize_message(utf8_len(text)),
        }),
        contains(oversize_message(utf8_len(text)), size_limit_note()),
{
    let size = utf8_len(text);
    let before = "输入大小 ("@ + mebibytes_text(size) + " MB) "@;
    lemma_contains_middle(before, size_limit_note(), Seq::empty());
    assert(oversize_message(size) =~= before + size_limit_note() + Seq::<char>::empty());
}

/// A blank text is refused by validation, pretty-printing and minification
/// alike, whatever the options: each returns the message for an empty input,
/// and validation gives no position.
pub proof fn lemma_blank_input_is_rejected(text: Seq<char>, options: FormattingOptions)
    requires
        utf8_len(text) <= MAX_JSON_SIZE,
        is_blank(text),
    ensures
        validation_outcome(text) == (ValidationOutcome::Error {
            message: empty_input_message(),
            line: None,
            column: None,
        }),
        formatting_outcome(text, options) == (FormattingOutcome::Error {
            message: empty_input_message(),
        }),
        minification_outcome(text) == (FormattingOutcome::Error { message: empty_input_message() }),
{
}

/// What is printed depends on the document alone: two texts that pass the
/// checks on the input and that the parser reads as the same document are
/// pretty-printed alike under the same options, and minified alike.
pub proof fn lemma_same_document_same_output(
    first: Seq<char>,
    second: Seq<char>,
    options: FormattingOptions,
)
    requires
        rejection(first) is None,
        rejection(second) is None,
        json_parse(first) == json_parse(second),
    ensures
        formatting_outcome(first, options) == formatting_outcome(second, options),
        minification_outcome(first) == minification_outcome(second),
{
}

/// Whether `printed` is read back as the document of `text`: it passes the
/// checks on the input, and the parser makes of it what it makes of `text`.
pub open spec fn reads_back_as(printed: Seq<char>, text: Seq<char>) -> bool {
    rejection(printed) is None && json_parse(printed) == json_parse(text)
}

/// Minifying is idempotent on a text whose minified form is read back as
/// the document of the text: minifying that form returns it unchanged.
pub proof fn lemma_minify_again(text: Seq<char>)
    requires
        minification_outcome(text) is Success,
        reads_back_as(minification_outcome(text)->formatted, text),
    ensures
        minification_outcome(minification_outcome(text)->formatted) == minification_outcome(text),
{
}

/// Minifying a pretty-printed text that is read back as the document of the
/// text it was printed from gives what minifying that text gives.
pub proof fn lemma_minify_after_format(text: Seq<char>, options: FormattingOptions)
    requires
        formatting_outcome(text, options) is Success,
        reads_back_as(formatting_outcome(text, options)->formatted, text),
    ensures
        minification_outcome(formatting_outcome(text, options)->formatted) == minification_outcome(
            text,
        ),
{
}

/// Pretty-printing, minifying and pretty-printing again with the same
/// options ends in the first pretty-print, as long as each text on the way
/// is read back as the document of the text at the start.
pub proof fn lemma_format_minify_format(text: Seq<char>, options: FormattingOptions)
    requires
        formatting_outcome(text, options) is Success,
        reads_back_as(formatting_outcome(text, options)->formatted, text),
        minification_outcome(text) is Success,
        reads_back_as(minification_outcome(text)->formatted, text),
    ensures
        ({
            let pretty = formatting_outcome(text, options)->formatted;
            let minified = minification_outcome(pretty)->formatted;
            formatting_outcome(minified, options) == formatting_outcome(text, options)
        }),
{
}

/// The size that comes with a printed text is the length of that very text
/// in bytes, the line feed at its end included.
pub proof fn lemma_size_is_length_of_output(text: Seq<char>, options: FormattingOptions)
    ensures
        formatting_outcome(text, options) is Success ==> formatting_outcome(text, options)->size
            == utf8_len(formatting_outcome(text, options)->formatted),
        minification_outcome(text) is Success ==> minification_outcome(text)->size == utf8_len(
            minification_outcome(text)->formatted,
        ),
{
}

/// A pretty-printed text ends with a line feed if the options ask for one,
/// and is otherwise exactly what the printer gave.
pub proof fn lemma_trailing_newline(text: Seq<char>, options: FormattingOptions)
    requires
        formatting_outcome(text, options) is Success,
    ensures
        json_parse(text) is Ok,
        json_pretty(json_parse(text)->Ok_0, spaces(options.indent as nat)) is Ok,
        ({
            let printed = json_pretty(json_parse(text)->Ok_0, spaces(options.indent as nat))->Ok_0;
            let formatted = formatting_outcome(text, options)->formatted;
            if options.trailing_newline {
                formatted == printed.push('\n')
            } else {
                formatted == printed
            }
        }),
{
}

/// The error for a text that the parser refused.
pub fn parse_failure(error: &ParseError) -> (result: FormattingResult)
    ensures
        result@ == (FormattingOutcome::Error { message: parse_failure_message(error@) }),
{
    let mut message = String::from_str("JSON 解析失败: ");
    message.append(error.message.as_str());
    push_position(&mut message, error.line, error.column);
    FormattingResult::Error { message }
}

/// The result for what a printer answered: the text with its length in
/// bytes, or an error that opens with `prefix`.
pub fn printed_result(printed: Result<String, String>, prefix: &str) -> (result: FormattingResult)
    ensures
        result@ == printed_outcome(printed_view(printed), prefix@),
{
    match printed {
        Ok(formatted) => {
            let size = byte_len(formatted.as_str());
            FormattingResult::Success { formatted, size }
        },
        Err(description) => {
            let mut message = String::from_str(prefix);
            message.append(description.as_str());
            FormattingResult::Error { message }
        },
    }
}

/// Ends a printed text with one line feed, if `trailing_newline` asks for
/// it. A failure is passed on unchanged.
pub fn finish(printed: Result<String, String>, trailing_newline: bool) -> (done: Result<
    String,
    String,
>)
    ensures
        printed_view(done) == finished(printed_view(printed), trailing_newline),
{
    match printed {
        Ok(text) => {
            if trailing_newline {
                let mut text = text;
                text.push('\n');
                Ok(text)
            } else {
                Ok(text)
            }
        },
        Err(description) => Err(description),
    }
}

/// Puts a failure of the pretty printer into words; a printed text is
/// passed on unchanged.
pub fn describe(printed: Result<String, PrintError>) -> (told: Result<String, String>)
    ensures
        printed_view(told) == described(pretty_view(printed)),
{
    match printed {
        Ok(text) => Ok(text),
        Err(PrintError::Serialize(words)) => {
            let mut message = String::from_str("序列化失败: ");
            message.append(words.as_str());
            Err(message)
        },
        Err(PrintError::Encoding(words)) => {
            let mut message = String::from_str("UTF-8 转换失败: ");
            message.append(words.as_str());
            Err(message)
        },
    }
}

/// Prints `value` with `indent` spaces per nesting level. Every document
/// can be printed.
pub fn format_value(value: &serde_json::Value, indent: u8) -> (printed: Result<String, String>)
    ensures
        printed_view(printed) == described(json_pretty(*value, spaces(indent as nat))),
        printed is Ok,
{
    let mut indent_str = String::new();
    push_spaces(&mut indent_str, indent);
    assert(indent_str@ =~= spaces(indent as nat));
    describe(to_pretty(value, indent_str.as_str()))
}

/// Pretty-prints `input` with `options`.
///
/// The input is checked for its size and for being blank, then the options
/// are checked, then the input is parsed; the first failure is the error
/// returned. A document is printed with `options.indent` spaces per nesting
/// level and, if `options.trailing_newline` is set, one line feed at the end.
/// The size returned is the length of that output in bytes.
pub fn format_json(input: &str, options: &FormattingOptions) -> (result: FormattingResult)
    ensures
        result@ == formatting_outcome(input@, *options),
        result@ is Success <==> {
            &&& rejection(input@) is None
            &&& is_supported_indent(options.indent)
            &&& json_parse(input@) is Ok
        },
{
    match check_input(input) {
        Some(message) => { return FormattingResult::Error { message }; },
        None => {},
    }
    if options.indent != 2 && options.indent != 4 {
        let mut message = String::from_str("不支持的缩进值 ");
        push_decimal(&mut message, options.indent as u64);
        message.append("，仅支持 2 或 4 个空格");
        assert(message@ =~= indent_message(options.indent as nat));
        return FormattingResult::Error { message };
    }
    match parse(input) {
        Ok(value) => {
            let printed = finish(format_value(&value, options.indent), options.trailing_newline);
            printed_result(printed, "JSON 格式化失败: ")
        },
        Err(error) => parse_failure(&error),
    }
}

/// Minifies `input`: the same checks as [`format_json`] but for the options,
/// then the document printed without insignificant whitespace and without a
/// line feed at the end.
pub fn minify_json(input: &str) -> (result: FormattingResult)
    ensures
        result@ == minification_outcome(input@),
        result@ is Success <==> rejection(input@) is None && json_parse(input@) is Ok,
{
    match check_input(input) {
        Some(message) => { return FormattingResult::Error { message }; },
        None => {},
    }
    match parse(input) {
        Ok(value) => printed_result(to_compact(&value), "JSON 压缩失败: "),
        Err(error) => parse_failure(&error),
    }
}

} // verus!
