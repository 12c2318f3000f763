//! The rules for the files that documents are read from and written to.
//! Reading and writing themselves are the caller's part.

use crate::text::{mebibytes_text, push_mebibytes, text_equals};
use vstd::prelude::*;

verus! {

/// What was read from a file: its content and its name without the
/// directories.
#[derive(Debug)]
pub struct FileReadResult {
    pub content: String,
    pub file_name: String,
}

/// The largest file that is read, in bytes: 10 MiB.
pub const MAX_FILE_SIZE: u64 = 10485760;

/// The message for a file whose extension is not `json`.
pub open spec fn wrong_extension_message(extension: Seq<char>) -> Seq<char> {
    "文件必须是 .json 格式,当前: ."@ + extension
}

/// The message for a file to be read that has no extension.
pub open spec fn missing_extension_message() -> Seq<char> {
    "文件缺少扩展名,必须是 .json 文件"@
}

/// The message for a file of `size` bytes that is too large to be read.
pub open spec fn file_too_large_message(size: nat) -> Seq<char> {
    "文件太大 ("@ + mebibytes_text(size) + " MB),最大支持 10 MB"@
}

/// What is to be done about the extension of a path that is written to.
#[derive(Debug, Clone, Copy, PartialEq, Eq, Structural)]
pub enum WriteExtension {
    /// The path ends in `.json` and is used as it is.
    Keep,
    /// The path has no extension: `.json` is added to it.
    AddJson,
}

/// The view of the result of a check that returns nothing on success.
pub open spec fn check_view(checked: Result<(), String>) -> Result<(), Seq<char>> {
    match checked {
        Ok(()) => Ok(()),
        Err(message) => Err(message@),
    }
}

/// The view of the result of the check on a path that is written to.
pub open spec fn write_check_view(checked: Result<WriteExtension, String>) -> Result<
    WriteExtension,
    Seq<char>,
> {
    match checked {
        Ok(extension) => Ok(extension),
        Err(message) => Err(message@),
    }
}

/// The rule for a file that is read: its extension is `json`.
pub open spec fn read_extension_rule(extension: Option<Seq<char>>) -> Result<(), Seq<char>> {
    match extension {
        Some(found) => if found == "json"@ {
            Ok(())
        } else {
            Err(wrong_extension_message(found))
        },
        None => Err(missing_extension_message()),
    }
}

/// The rule for a path that is written to: an extension, if there is one,
/// is `json`; if there is none, `.json` is added.
pub open spec fn write_extension_rule(extension: Option<Seq<char>>) -> Result<
    WriteExtension,
    Seq<char>,
> {
    match extension {
        Some(found) => if found == "json"@ {
            Ok(WriteExtension::Keep)
        } else {
            Err(wrong_extension_message(found))
        },
        None => Ok(WriteExtension::AddJson),
    }
}

/// The rule for the size of a file that is read.
pub open spec fn file_size_rule(size: u64) -> Result<(), Seq<char>> {
    if size > MAX_FILE_SIZE {
        Err(file_too_large_message(size as nat))
    } else {
        Ok(())
    }
}

/// The view of an optional extension.
pub open spec fn extension_view(extension: Option<&str>) -> Option<Seq<char>> {
    match extension {
        Some(found) => Some(found@),
        None => None,
    }
}

fn wrong_extension(found: &str) -> (message: String)
    ensures
        message@ == wrong_extension_message(found@),
{
    let mut message = String::from_str("文件必须是 .json 格式,当前: .");
    message.append(found);
    message
}

/// Checks the extension of a file that is to be read.
pub fn check_read_extension(extension: Option<&str>) -> (checked: Result<(), String>)
    ensures
        check_view(checked) == read_extension_rule(extension_view(extension)),
{
    match extension {
        Some(found) => {
            if text_equals(found, "json") {
                Ok(())
            } else {
                Err(wrong_extension(found))
            }
        },
        None => Err(String::from_str("文件缺少扩展名,必须是 .json 文件")),
    }
}

/// Checks the extension of a path that is to be written to.
pub fn check_write_extension(extension: Option<&str>) -> (checked: Result<WriteExtension, String>)
    ensures
        write_check_view(checked) == write_extension_rule(extension_view(extension)),
{
    match extension {
        Some(found) => {
            if text_equals(found, "json") {
                Ok(WriteExtension::Keep)
            } else {
                Err(wrong_extension(found))
            }
        },
        None => Ok(WriteExtension::AddJson),
    }
}

/// Checks the size of a file that is to be read.
pub fn check_file_size(size: u64) -> (checked: Result<(), String>)
    ensures
        check_view(checked) == file_size_rule(size),
{
    if size > MAX_FILE_SIZE {
        let mut message = String::from_str("文件太大 (");
        push_mebibytes(&mut message, size);
        message.append(" MB),最大支持 10 MB");
        assert(message@ =~= file_too_large_message(size as nat));
        Err(message)
    } else {
        Ok(())
    }
}

} // verus!
