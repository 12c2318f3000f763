use json_tool::models::formatting::{default_indent, default_trailing_newline, FormattingOptions};
use json_tool::models::log_entry::{OperationResult, OperationType};
use json_tool::services::file_io::{
    check_file_size, check_read_extension, check_write_extension, FileReadResult, WriteExtension,
    MAX_FILE_SIZE,
};
use json_tool::services::input::{byte_len, check_input, MAX_JSON_SIZE};

#[test]
fn operation_names() {
    assert_eq!(OperationType::Validate.as_str(), "验证");
    assert_eq!(OperationType::Format.as_str(), "格式化");
    assert_eq!(OperationType::Minify.as_str(), "压缩");
}

#[test]
fn result_names() {
    assert_eq!(OperationResult::Success.as_str(), "成功");
    assert_eq!(OperationResult::Error.as_str(), "失败");
}

#[test]
fn default_options() {
    assert_eq!(default_indent(), 2);
    assert!(default_trailing_newline());
    let options = FormattingOptions::default();
    assert_eq!(options.indent, 2);
    assert!(options.trailing_newline);
}

#[test]
fn input_checks() {
    assert_eq!(MAX_JSON_SIZE, 5 * 1024 * 1024);
    assert_eq!(check_input("{}"), None);
    assert_eq!(check_input("not json at all"), None);
    assert_eq!(check_input(""), Some("输入为空，请提供有效的 JSON".to_string()));
    assert_eq!(check_input(" \n "), Some("输入为空，请提供有效的 JSON".to_string()));
    let big = " ".repeat(7 * 1024 * 1024 + 512 * 1024);
    assert_eq!(check_input(&big), Some("输入大小 (7.50 MB) 超过最大限制 5 MB".to_string()));
    assert_eq!(byte_len("aé日"), 6);
    assert_eq!(byte_len(""), 0);
}

#[test]
fn extension_rule_for_reading() {
    assert_eq!(check_read_extension(Some("json")), Ok(()));
    assert_eq!(
        check_read_extension(Some("txt")),
        Err("文件必须是 .json 格式,当前: .txt".to_string())
    );
    assert_eq!(
        check_read_extension(Some("JSON")),
        Err("文件必须是 .json 格式,当前: .JSON".to_string())
    );
    assert_eq!(check_read_extension(Some("")), Err("文件必须是 .json 格式,当前: .".to_string()));
    assert_eq!(check_read_extension(None), Err("文件缺少扩展名,必须是 .json 文件".to_string()));
}

#[test]
fn extension_rule_for_writing() {
    assert_eq!(check_write_extension(Some("json")), Ok(WriteExtension::Keep));
    assert_eq!(check_write_extension(None), Ok(WriteExtension::AddJson));
    assert_eq!(
        check_write_extension(Some("txt")),
        Err("文件必须是 .json 格式,当前: .txt".to_string())
    );
}

#[test]
fn size_rule_for_reading() {
    assert_eq!(MAX_FILE_SIZE, 10 * 1024 * 1024);
    assert_eq!(check_file_size(0), Ok(()));
    assert_eq!(check_file_size(10 * 1024 * 1024), Ok(()));
    assert_eq!(
        check_file_size(10 * 1024 * 1024 + 1),
        Err("文件太大 (10.00 MB),最大支持 10 MB".to_string())
    );
    assert_eq!(
        check_file_size(12 * 1024 * 1024 + 256 * 1024),
        Err("文件太大 (12.25 MB),最大支持 10 MB".to_string())
    );
}

#[test]
fn file_read_result_holds_content_and_name() {
    let read = FileReadResult {
        content: r#"{"name": "test", "value": 123}"#.to_string(),
        file_name: "test.json".to_string(),
    };
    assert_eq!(read.content, r#"{"name": "test", "value": 123}"#);
    assert_eq!(read.file_name, "test.json");
}

#[test]
fn test_read_non_json_file() {
    let result = check_read_extension(Some("txt"));
    assert!(result.is_err());
    assert!(result.unwrap_err().contains("必须是 .json 格式"));
}

#[test]
fn test_write_json_file_auto_add_extension() {
    let result = check_write_extension(None);
    assert!(result.is_ok());
    assert_eq!(result, Ok(WriteExtension::AddJson));
}

#[test]
fn test_write_invalid_extension() {
    let result = check_write_extension(Some("txt"));
    assert!(result.is_err());
    assert!(result.unwrap_err().contains("必须是 .json 格式"));
}
