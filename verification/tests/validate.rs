use json_tool::json::ParseError;
use json_tool::models::validation::ValidationResult;
use json_tool::services::json_parser::{
    classify, format_error_message, validate_json, validation_result, ErrorCategory,
};

fn error_of(input: &str) -> (String, Option<usize>, Option<usize>) {
    match validate_json(input) {
        ValidationResult::Error { message, line, column } => (message, line, column),
        ValidationResult::Success { .. } => panic!("Expected Error result"),
    }
}

#[test]
fn test_valid_json_object() {
    let input = r#"{"name": "test", "value": 42}"#;
    let result = validate_json(input);
    assert!(matches!(result, ValidationResult::Success { .. }));
}

#[test]
fn test_valid_json_array() {
    let input = r#"[1, 2, 3, "test"]"#;
    let result = validate_json(input);
    assert!(matches!(result, ValidationResult::Success { .. }));
}

#[test]
fn test_valid_json_nested() {
    let input = r#"{"user": {"name": "Alice", "age": 30, "hobbies": ["reading", "coding"]}}"#;
    let result = validate_json(input);
    assert!(matches!(result, ValidationResult::Success { .. }));
}

#[test]
fn test_empty_object() {
    let input = r#"{}"#;
    let result = validate_json(input);
    assert!(matches!(result, ValidationResult::Success { .. }));
}

#[test]
fn test_empty_array() {
    let input = r#"[]"#;
    let result = validate_json(input);
    assert!(matches!(result, ValidationResult::Success { .. }));
}

#[test]
fn test_invalid_json_missing_quote() {
    let input = r#"{"name: "test"}"#;
    let result = validate_json(input);
    assert!(matches!(result, ValidationResult::Error { .. }));
}

#[test]
fn test_invalid_json_trailing_comma() {
    let input = r#"{"name": "test",}"#;
    let result = validate_json(input);
    if let ValidationResult::Error { line, column, .. } = result {
        assert_eq!(line, Some(1));
        assert!(column.is_some());
    } else {
        panic!("Expected Error result");
    }
}

#[test]
fn test_invalid_json_missing_comma() {
    let input = r#"{"name": "test" "value": 42}"#;
    let result = validate_json(input);
    assert!(matches!(result, ValidationResult::Error { .. }));
}

#[test]
fn test_invalid_json_unmatched_bracket() {
    let input = r#"{"name": "test""#;
    let result = validate_json(input);
    assert!(matches!(result, ValidationResult::Error { .. }));
}

#[test]
fn test_empty_input() {
    let input = "";
    let result = validate_json(input);
    assert!(matches!(result, ValidationResult::Error { .. }));
}

#[test]
fn test_plain_text() {
    let input = "hello world";
    let result = validate_json(input);
    assert!(matches!(result, ValidationResult::Error { .. }));
}

#[test]
fn test_json_too_large() {
    let input = "a".repeat(6 * 1024 * 1024); // 6 MB
    let result = validate_json(&input);
    if let ValidationResult::Error { message, .. } = result {
        assert!(message.contains("超过最大限制"));
    } else {
        panic!("Expected Error result");
    }
}

#[test]
fn test_error_location_multiline() {
    let input = "{\n  \"name\": \"test\",\n  \"value\": invalid\n}";
    let result = validate_json(input);
    if let ValidationResult::Error { line, column, .. } = result {
        assert_eq!(line, Some(3));
        assert!(column.is_some());
    } else {
        panic!("Expected Error result");
    }
}

#[test]
fn test_success_returns_size() {
    let input = r#"{"test": 123}"#;
    let result = validate_json(input);
    if let ValidationResult::Success { size, .. } = result {
        assert_eq!(size, input.len());
    } else {
        panic!("Expected Success result");
    }
}

#[test]
fn validation_returns_the_parsed_document() {
    let input = r#" {"b": [1, 2.5, "x", null, true], "a": {"k": "v"}} "#;
    let expected: serde_json::Value = serde_json::from_str(input).unwrap();
    match validate_json(input) {
        ValidationResult::Success { data, size } => {
            assert_eq!(data, expected);
            assert_eq!(data["b"][2], serde_json::Value::String("x".to_string()));
            assert_eq!(size, 51);
        }
        ValidationResult::Error { .. } => panic!("Expected Success result"),
    }
}

#[test]
fn size_counts_bytes_not_characters() {
    let input = "\"日本語\"";
    match validate_json(input) {
        ValidationResult::Success { size, .. } => assert_eq!(size, 11),
        ValidationResult::Error { .. } => panic!("Expected Success result"),
    }
}

#[test]
fn oversize_input_has_no_position_and_names_the_limit() {
    let input = " ".repeat(6 * 1024 * 1024);
    let (message, line, column) = error_of(&input);
    assert_eq!(message, "输入大小 (6.00 MB) 超过最大限制 5 MB");
    assert_eq!(line, None);
    assert_eq!(column, None);
}

#[test]
fn input_just_over_the_limit_is_rejected() {
    let mut input = String::from("\"");
    input.push_str(&"a".repeat(5 * 1024 * 1024 - 1));
    input.push('"');
    assert_eq!(input.len(), 5 * 1024 * 1024 + 1);
    let (message, line, column) = error_of(&input);
    assert_eq!(message, "输入大小 (5.00 MB) 超过最大限制 5 MB");
    assert_eq!(line, None);
    assert_eq!(column, None);
}

#[test]
fn input_at_the_limit_is_accepted() {
    let mut input = String::from("\"");
    input.push_str(&"a".repeat(5 * 1024 * 1024 - 2));
    input.push('"');
    assert_eq!(input.len(), 5 * 1024 * 1024);
    match validate_json(&input) {
        ValidationResult::Success { size, .. } => assert_eq!(size, 5 * 1024 * 1024),
        ValidationResult::Error { .. } => panic!("Expected Success result"),
    }
}

#[test]
fn blank_input_has_no_position() {
    for input in ["", " ", "\n\t  \r\n", "\u{3000}\u{a0}"] {
        let (message, line, column) = error_of(input);
        assert_eq!(message, "输入为空，请提供有效的 JSON");
        assert_eq!(line, None);
        assert_eq!(column, None);
    }
}

#[test]
fn trailing_comma_is_reported_at_its_place() {
    let (message, line, column) = error_of(r#"{"a": "b",}"#);
    assert_eq!(line, Some(1));
    assert_eq!(column, Some(11));
    assert_eq!(message, "JSON 中存在多余的逗号（第 1 行，第 11 列）");
}

#[test]
fn missing_separator_message() {
    let (message, line, column) = error_of(r#"{"name": "test" "value": 42}"#);
    assert_eq!(line, Some(1));
    assert_eq!(column, Some(17));
    assert_eq!(message, "缺少逗号分隔符（第 1 行，第 17 列）");
}

#[test]
fn missing_value_message() {
    let (message, line, column) = error_of("{\n  \"name\": \"test\",\n  \"value\": invalid\n}");
    assert_eq!(line, Some(3));
    assert_eq!(column, Some(12));
    assert_eq!(message, "缺少值或引号不完整（第 3 行，第 12 列）");
}

#[test]
fn unexpected_end_message_has_no_column() {
    let (message, line, column) = error_of(r#"{"name": "test""#);
    assert_eq!(line, Some(1));
    assert_eq!(column, Some(15));
    assert_eq!(message, "JSON 结构不完整，可能缺少括号（第 1 行）");
}

#[test]
fn non_string_key_message() {
    let (message, line, column) = error_of("{1: 2}");
    assert_eq!(line, Some(1));
    assert_eq!(column, Some(2));
    assert_eq!(message, "对象的键必须是字符串（第 1 行，第 2 列）");
}

#[test]
fn invalid_escape_message() {
    let (message, line, column) = error_of(r#""\q""#);
    assert_eq!(line, Some(1));
    assert_eq!(column, Some(3));
    assert_eq!(message, "包含非法的转义序列（第 1 行，第 3 列）");
}

#[test]
fn control_character_message() {
    let (message, line, column) = error_of("\"a\u{1}b\"");
    assert_eq!(line, Some(1));
    assert_eq!(column, Some(3));
    assert_eq!(message, "包含非法的控制字符（第 1 行，第 3 列）");
}

#[test]
fn other_faults_keep_the_parsers_words() {
    let (message, line, column) = error_of("[1 2]");
    assert_eq!(line, Some(1));
    assert_eq!(column, Some(4));
    assert_eq!(
        message,
        "JSON 解析错误：expected `,` or `]` at line 1 column 4（第 1 行，第 4 列）"
    );
}

#[test]
fn classification_takes_the_first_phrase_found() {
    assert_eq!(classify("trailing comma at line 1 column 2"), ErrorCategory::TrailingComma);
    assert_eq!(classify("expected `,` or `}` at line 1 column 2"), ErrorCategory::MissingSeparator);
    assert_eq!(classify("expected comma"), ErrorCategory::MissingSeparator);
    assert_eq!(classify("expected value at line 1 column 2"), ErrorCategory::MissingValue);
    assert_eq!(classify("EOF while parsing a list"), ErrorCategory::UnexpectedEnd);
    assert_eq!(classify("key must be a string"), ErrorCategory::NonStringKey);
    assert_eq!(classify("invalid escape"), ErrorCategory::InvalidEscape);
    assert_eq!(classify("control character (\\u0000-\\u001F) found"), ErrorCategory::ControlCharacter);
    assert_eq!(classify("expected `,` or `]`"), ErrorCategory::Other);
    assert_eq!(classify(""), ErrorCategory::Other);
    assert_eq!(classify("expected value, then a trailing comma"), ErrorCategory::TrailingComma);
    assert_eq!(classify("invalid escape near control character"), ErrorCategory::InvalidEscape);
    assert_eq!(classify("Trailing Comma"), ErrorCategory::Other);
}

#[test]
fn fault_right_after_a_line_break_is_in_column_zero() {
    let (message, line, column) = error_of("[\n");
    assert_eq!(line, Some(2));
    assert_eq!(column, Some(0));
    assert_eq!(message, "JSON 结构不完整，可能缺少括号（第 2 行）");
    let (message, line, column) = error_of("[1,\n]");
    assert_eq!(line, Some(2));
    assert_eq!(column, Some(1));
    assert_eq!(message, "JSON 中存在多余的逗号（第 2 行，第 1 列）");
}

#[test]
fn message_for_a_given_report() {
    let report = ParseError { message: "EOF while parsing a value".to_string(), line: 12, column: 0 };
    assert_eq!(format_error_message(&report), "JSON 结构不完整，可能缺少括号（第 12 行）");
    let report = ParseError { message: "number out of range".to_string(), line: 1, column: 305 };
    assert_eq!(
        format_error_message(&report),
        "JSON 解析错误：number out of range（第 1 行，第 305 列）"
    );
}

#[test]
fn result_for_a_given_parser_answer() {
    let accepted = validation_result(7, Ok(serde_json::Value::Bool(true)));
    match accepted {
        ValidationResult::Success { data, size } => {
            assert_eq!(data, serde_json::Value::Bool(true));
            assert_eq!(size, 7);
        }
        ValidationResult::Error { .. } => panic!("Expected Success result"),
    }
    let refused = validation_result(
        7,
        Err(ParseError { message: "trailing comma".to_string(), line: 2, column: 9 }),
    );
    match refused {
        ValidationResult::Error { message, line, column } => {
            assert_eq!(message, "JSON 中存在多余的逗号（第 2 行，第 9 列）");
            assert_eq!(line, Some(2));
            assert_eq!(column, Some(9));
        }
        ValidationResult::Success { .. } => panic!("Expected Error result"),
    }
}

#[test]
fn deeply_nested_input_is_refused_not_fatal() {
    let mut input = "[".repeat(200);
    input.push_str(&"]".repeat(200));
    let (message, line, column) = error_of(&input);
    assert_eq!(line, Some(1));
    assert_eq!(column, Some(128));
    assert_eq!(
        message,
        "JSON 解析错误：recursion limit exceeded at line 1 column 128（第 1 行，第 128 列）"
    );
}
