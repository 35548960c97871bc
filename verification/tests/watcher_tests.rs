use nestjs_trpc::watcher::{
    error_summary_lines, extract_changed_paths, should_watch_path, DebouncedChange, WatchConfig,
    DEFAULT_DEBOUNCE_MILLISECONDS,
};

#[test]
fn test_watch_config_creation() {
    let config = WatchConfig::new(
        "**/*.router.ts".to_string(),
        "/output".to_string(),
        "/base".to_string(),
    );

    assert_eq!(config.router_pattern, "**/*.router.ts");
    assert_eq!(config.output_directory, "/output");
    assert_eq!(config.base_directory, "/base");
    assert_eq!(config.debounce_milliseconds, DEFAULT_DEBOUNCE_MILLISECONDS);
    assert!(!config.verbose);
}

#[test]
fn test_watch_config_with_debounce() {
    let config = WatchConfig::new(
        "**/*.router.ts".to_string(),
        "/output".to_string(),
        "/base".to_string(),
    )
    .with_debounce_milliseconds(500);

    assert_eq!(config.debounce_milliseconds, 500);
}

#[test]
fn test_watch_config_with_verbose() {
    let config = WatchConfig::new(
        "**/*.router.ts".to_string(),
        "/output".to_string(),
        "/base".to_string(),
    )
    .with_verbose(true);

    assert!(config.verbose);
}

#[test]
fn test_print_error_summary_empty_list() {
    assert!(error_summary_lines(&Vec::new(), false).is_empty());
    assert!(error_summary_lines(&Vec::new(), true).is_empty());
}

#[test]
fn test_should_watch_path_accepts_typescript_files() {
    assert!(should_watch_path(
        "/base/src/routers/user.router.ts",
        "/base/src/generated"
    ));
}

#[test]
fn test_should_watch_path_excludes_output_directory() {
    assert!(!should_watch_path(
        "/base/src/generated/server.ts",
        "/base/src/generated"
    ));
}

#[test]
fn test_should_watch_path_excludes_node_modules() {
    assert!(!should_watch_path(
        "/base/node_modules/package.ts",
        "/base/src/generated"
    ));
}

#[test]
fn test_should_watch_path_excludes_non_typescript_files() {
    assert!(!should_watch_path(
        "/base/src/config.json",
        "/base/src/generated"
    ));
}

#[test]
fn test_extract_changed_paths_filters_output_directory() {
    let events = vec![
        DebouncedChange {
            path: "/base/src/test.ts".to_string(),
            is_any_kind: true,
        },
        DebouncedChange {
            path: "/base/generated/server.ts".to_string(),
            is_any_kind: true,
        },
    ];

    let changed = extract_changed_paths(&events, "/base/generated");

    assert_eq!(changed.len(), 1);
    assert_eq!(changed[0], "/base/src/test.ts");
}

#[test]
fn test_extract_changed_paths_empty_when_all_filtered() {
    let events = vec![DebouncedChange {
        path: "/base/generated/server.ts".to_string(),
        is_any_kind: true,
    }];

    let changed = extract_changed_paths(&events, "/base/generated");

    assert!(changed.is_empty());
}
