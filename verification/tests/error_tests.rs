use nestjs_trpc::error::{
    CliError, ConfigError, GeneratorError, ImportError, ParserError, ScannerError,
};

#[test]
fn test_config_not_found_error() {
    let err = ConfigError::NotFound {
        path: "nestjs-trpc.toml".to_string(),
    };
    let message = err.message();
    assert!(message.contains("nestjs-trpc.toml"));
    assert!(message.contains("nestjs-trpc init"));
}

#[test]
fn test_parser_syntax_error() {
    let err = ParserError::SyntaxError {
        path: "user.router.ts".to_string(),
        line: 10,
        column: 5,
        message: "Unexpected token".to_string(),
    };
    let message = err.message();
    assert!(message.contains("user.router.ts"));
    assert!(message.contains("line 10"));
    assert!(message.contains("column 5"));
}

#[test]
fn test_circular_import_error() {
    let err = ImportError::CircularImport {
        cycle: "a.ts -> b.ts -> c.ts -> a.ts".to_string(),
    };
    let message = err.message();
    assert!(message.contains("Circular import"));
    assert!(message.contains("a.ts -> b.ts -> c.ts -> a.ts"));
}

#[test]
fn test_error_chaining() {
    let parser_err = ParserError::ReadFailed {
        path: "test.ts".to_string(),
        source: "file not found".to_string(),
    };
    let cli_err = CliError::from(parser_err);

    assert!(cli_err.message().contains("test.ts"));
}

#[test]
fn test_scanner_no_files_found() {
    let err = ScannerError::NoFilesFound {
        pattern: "**/*.router.ts".to_string(),
        root: "./src".to_string(),
    };
    let message = err.message();
    assert!(message.contains("**/*.router.ts"));
    assert!(message.contains("./src"));
}

#[test]
fn test_generator_unresolved_schema() {
    let err = GeneratorError::UnresolvedSchema {
        path: "user.router.ts".to_string(),
        name: "userSchema".to_string(),
    };
    let message = err.message();
    assert!(message.contains("userSchema"));
    assert!(message.contains("user.router.ts"));
    assert!(message.contains("not found"));
}

#[test]
fn module_not_found_error_lists_searched_paths() {
    let err = ConfigError::ModuleNotFound {
        searched_paths: vec!["/p/src/main.ts".to_string(), "/p/app.module.ts".to_string()],
    };
    let message = err.message();
    assert!(message.contains("Could not find TRPCModule.forRoot()"));
    assert!(message.contains("  - /p/src/main.ts"));
    assert!(message.contains("  - /p/app.module.ts"));
}
