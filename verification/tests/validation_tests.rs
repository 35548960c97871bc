use nestjs_trpc::validation::{
    build_tsc_result, compute_diff, find_tsc, parse_tsc_error_line, tsc_search_paths, TscError,
    TscSeverity,
};

#[test]
fn parses_error_line_correctly() {
    let line = "src/app.ts(10,5): error TS2322: Type 'number' is not assignable to type 'string'.";
    let error = parse_tsc_error_line(line).unwrap();

    assert_eq!(error.file, "src/app.ts");
    assert_eq!(error.line, 10);
    assert_eq!(error.column, 5);
    assert_eq!(error.code, "TS2322");
    assert_eq!(
        error.message,
        "Type 'number' is not assignable to type 'string'."
    );
    assert_eq!(error.severity, TscSeverity::Error);
}

#[test]
fn parses_warning_line_correctly() {
    let line = "src/utils.ts(3,1): warning TS6133: 'unused' is declared but its value is never read.";
    let error = parse_tsc_error_line(line).unwrap();

    assert_eq!(error.file, "src/utils.ts");
    assert_eq!(error.line, 3);
    assert_eq!(error.column, 1);
    assert_eq!(error.code, "TS6133");
    assert_eq!(error.severity, TscSeverity::Warning);
}

#[test]
fn returns_none_for_empty_line() {
    assert!(parse_tsc_error_line("").is_none());
    assert!(parse_tsc_error_line("   ").is_none());
}

#[test]
fn returns_none_for_non_error_line() {
    assert!(parse_tsc_error_line("Compilation complete.").is_none());
    assert!(parse_tsc_error_line("Found 3 errors.").is_none());
}

#[test]
fn handles_windows_paths() {
    let line = "C:\\Users\\dev\\src\\app.ts(5,10): error TS1005: ';' expected.";
    let error = parse_tsc_error_line(line).unwrap();

    assert_eq!(error.file, "C:\\Users\\dev\\src\\app.ts");
    assert_eq!(error.line, 5);
    assert_eq!(error.column, 10);
}

#[test]
fn detects_no_changes_when_content_identical() {
    let content = "line 1\nline 2\nline 3\n";
    let result = compute_diff(Some(content), content, "test.ts");

    assert!(!result.has_changes);
    assert_eq!(result.lines_added, 0);
    assert_eq!(result.lines_removed, 0);
    assert!(result.unified_diff.is_empty());
}

#[test]
fn detects_new_file() {
    let new_content = "line 1\nline 2\n";
    let result = compute_diff(None, new_content, "new-file.ts");

    assert!(result.has_changes);
    assert_eq!(result.lines_added, 2);
    assert_eq!(result.lines_removed, 0);
    assert!(result.unified_diff.contains("/dev/null"));
    assert!(result.unified_diff.contains("b/new-file.ts"));
}

#[test]
fn counts_added_and_removed_lines() {
    let old_content = "line 1\nline 2\nline 3\n";
    let new_content = "line 1\nmodified line\nline 3\nnew line\n";
    let result = compute_diff(Some(old_content), new_content, "modified.ts");

    assert!(result.has_changes);
    assert_eq!(result.lines_added, 2);
    assert_eq!(result.lines_removed, 1);
}

#[test]
fn includes_file_path_in_diff_header() {
    let old_content = "old\n";
    let new_content = "new\n";
    let result = compute_diff(Some(old_content), new_content, "src/router.ts");

    assert!(result.unified_diff.contains("a/src/router.ts"));
    assert!(result.unified_diff.contains("b/src/router.ts"));
}

#[test]
fn handles_empty_old_content() {
    let new_content = "first line\n";
    let result = compute_diff(Some(""), new_content, "file.ts");

    assert!(result.has_changes);
    assert_eq!(result.lines_added, 1);
    assert_eq!(result.lines_removed, 0);
}

#[test]
fn tsc_result_counts_by_severity() {
    let errors = vec![
        TscError {
            file: "a.ts".to_string(),
            line: 1,
            column: 1,
            code: "TS1".to_string(),
            message: "first".to_string(),
            severity: TscSeverity::Error,
        },
        TscError {
            file: "b.ts".to_string(),
            line: 2,
            column: 2,
            code: "TS2".to_string(),
            message: "second".to_string(),
            severity: TscSeverity::Warning,
        },
    ];
    let result = build_tsc_result(errors, true);
    assert_eq!(result.error_count, 1);
    assert_eq!(result.warning_count, 1);
    assert!(!result.success);

    let clean = build_tsc_result(Vec::new(), true);
    assert!(clean.success);
}

#[test]
fn find_tsc_prefers_nearest_candidate() {
    let candidates = tsc_search_paths("/p");
    assert_eq!(candidates[0], "/p/node_modules/.bin/tsc");

    let existing = vec![
        "/p/../node_modules/.bin/tsc".to_string(),
        "/p/node_modules/.bin/tsc".to_string(),
    ];
    let found = find_tsc("/p", &existing, &Vec::new());
    assert_eq!(found, Some("/p/node_modules/.bin/tsc".to_string()));

    let from_path = find_tsc(
        "/p",
        &vec!["/usr/bin/tsc".to_string()],
        &vec!["/usr/bin".to_string()],
    );
    assert_eq!(from_path, Some("/usr/bin/tsc".to_string()));

    assert_eq!(find_tsc("/p", &Vec::new(), &Vec::new()), None);
}
