use nestjs_trpc::diagnostic::{find_error_length, find_line_start_offset, line_column_to_offset};
use nestjs_trpc::imports::types::DeclarationType;
use nestjs_trpc::scanner::{DirectoryListing, FileScanner};

#[test]
fn test_find_error_length_word() {
    let content = "const invalid here";
    let length = find_error_length(content, 6);
    assert_eq!(length, 7);
}

#[test]
fn test_find_error_length_at_end() {
    let content = "const";
    let length = find_error_length(content, 0);
    assert_eq!(length, 5);
}

#[test]
fn test_line_column_to_offset_first_line() {
    let content = "const x = 1;";
    let offset = line_column_to_offset(content, 1, 7);
    assert_eq!(offset, 6);
}

#[test]
fn test_line_column_to_offset_second_line() {
    let content = "line one\nline two";
    let offset = line_column_to_offset(content, 2, 1);
    assert_eq!(offset, 9);
}

#[test]
fn test_line_column_to_offset_middle_of_line() {
    let content = "first\nsecond\nthird";
    let offset = line_column_to_offset(content, 2, 4);
    assert_eq!(offset, 9);
}

#[test]
fn line_start_offset_past_last_line_is_end() {
    let content = "one\ntwo";
    assert_eq!(find_line_start_offset(content, 9), 7);
}

#[test]
fn test_declaration_type_display() {
    assert_eq!(DeclarationType::Variable.as_str(), "variable");
    assert_eq!(DeclarationType::Class.as_str(), "class");
    assert_eq!(DeclarationType::Interface.as_str(), "interface");
    assert_eq!(DeclarationType::Enum.as_str(), "enum");
    assert_eq!(DeclarationType::Function.as_str(), "function");
    assert_eq!(DeclarationType::TypeAlias.as_str(), "type alias");
    assert_eq!(DeclarationType::Unknown.as_str(), "unknown");
}

#[test]
fn test_scanner_directory_not_found() {
    let listing = DirectoryListing {
        entries: Vec::new(),
    };
    let result = FileScanner::new("/nonexistent/path/that/does/not/exist", &listing);
    assert!(matches!(
        result,
        Err(nestjs_trpc::error::ScannerError::DirectoryNotFound(_))
    ));
}
