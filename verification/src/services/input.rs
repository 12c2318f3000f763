//! The checks that every input passes before it is parsed.

use crate::text::{is_blank, is_blank_text, mebibytes_text, push_mebibytes};
use vstd::prelude::*;
use vstd::string::StringSliceAdditionalSpecFns;
use vstd::utf8::encode_utf8;

verus! {

/// The largest input accepted, in bytes: 5 MiB.
pub const MAX_JSON_SIZE: usize = 5242880;

/// Length of `text` in bytes, as UTF-8.
pub open spec fn utf8_len(text: Seq<char>) -> nat {
    encode_utf8(text).len()
}

/// The closing words of every message about an input over the size limit.
pub open spec fn size_limit_note() -> Seq<char> {
    "超过最大限制 5 MB"@
}

/// The message for an input of `size` bytes that is over the size limit.
pub open spec fn oversize_message(size: nat) -> Seq<char> {
    "输入大小 ("@ + mebibytes_text(size) + " MB) "@ + size_limit_note()
}

/// The message for an input that is empty or holds only whitespace.
pub open spec fn empty_input_message() -> Seq<char> {
    "输入为空，请提供有效的 JSON"@
}

/// Why `text` is rejected before parsing, if it is: first for its size, then
/// for being blank.
pub open spec fn rejection(text: Seq<char>) -> Option<Seq<char>> {
    if utf8_len(text) > MAX_JSON_SIZE {
        Some(oversize_message(utf8_len(text)))
    } else if is_blank(text) {
        Some(empty_input_message())
    } else {
        None
    }
}

/// The view of an optional message.
pub open spec fn message_view(message: Option<String>) -> Option<Seq<char>> {
    match message {
        Some(text) => Some(text@),
        None => None,
    }
}

/// The length of `text` in bytes.
pub fn byte_len(text: &str) -> (size: usize)
    ensures
        size == utf8_len(text@),
{
    text.as_bytes().len()
}

/// Checks `input` against the size limit and for being blank, and returns
/// the message of the first check that fails.
pub fn check_input(input: &str) -> (rejected: Option<String>)
    ensures
        message_view(rejected) == rejection(input@),
{
    let size: usize = byte_len(input);
    if size > MAX_JSON_SIZE {
        let mut message = String::from_str("输入大小 (");
        push_mebibytes(&mut message, size as u64);
        message.append(" MB) ");
        message.append("超过最大限制 5 MB");
        assert(message@ =~= oversize_message(size as nat));
        Some(message)
    } else if is_blank_text(input) {
        Some(String::from_str("输入为空，请提供有效的 JSON"))
    } else {
        None
    }
}

} // verus!
