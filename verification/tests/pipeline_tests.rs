use nestjs_trpc::ast::{
    CallExpr, Callee, Class, ClassMember, ClassMethod, Decorator, Expr, KeyValueProp, Module,
    ModuleItem, ObjectLit, Prop, PropName, PropOrSpread,
};
use nestjs_trpc::generation::{run_generation, server_file_path};
use nestjs_trpc::project::{ParsedFile, Project};
use nestjs_trpc::scanner::{DirEntry, DirectoryListing, FileScanner};

fn kv(key: &str, value: Expr, text: &str) -> PropOrSpread {
    PropOrSpread::Prop(Prop::KeyValue(Box::new(KeyValueProp {
        key: PropName::Ident(key.to_string()),
        value,
        text: text.to_string(),
    })))
}

fn call_decorator(name: &str, args: Vec<Expr>) -> Decorator {
    Decorator {
        expr: Expr::Call(CallExpr {
            callee: Callee::Expr(Box::new(Expr::Ident(name.to_string()))),
            args: args
                .into_iter()
                .map(|expr| nestjs_trpc::ast::ExprOrSpread {
                    spread: false,
                    expr,
                })
                .collect(),
            text: String::new(),
        }),
    }
}

fn router_project() -> Project {
    let inline_schema = Expr::Call(CallExpr {
        callee: Callee::Other,
        args: Vec::new(),
        text: "z.object({ id: z.string() })".to_string(),
    });
    let query_decorator = call_decorator(
        "Query",
        vec![Expr::Object(ObjectLit {
            props: vec![kv(
                "input",
                inline_schema,
                "input: z.object({ id: z.string() })",
            )],
            text: "{ input: z.object({ id: z.string() }) }".to_string(),
        })],
    );
    Project {
        files: vec![ParsedFile {
            file_path: "/p/src/user.router.ts".to_string(),
            module: Module {
                body: vec![ModuleItem::ClassDecl {
                    name: "UserRouter".to_string(),
                    class: Class {
                        decorators: vec![call_decorator("Router", vec![])],
                        body: vec![ClassMember::Method(ClassMethod {
                            key: PropName::Ident("getUser".to_string()),
                            decorators: vec![query_decorator],
                            body: None,
                        })],
                    },
                    exported: true,
                }],
            },
        }],
    }
}

#[test]
fn run_generation_emits_server_module() {
    let project = router_project();
    let (result, text) = run_generation(
        &project,
        "/p",
        "/p/src/@generated",
        "**/*.router.ts",
        None,
    )
    .expect("generation should succeed");

    assert_eq!(result.router_count, 1);
    assert_eq!(result.procedure_count, 1);
    assert!(text.contains("const userRouter = t.router({"));
    assert!(text.contains(".input(z.object({ id: z.string() }))"));
    assert!(text.contains("  userRouter: userRouter,"));
}

#[test]
fn run_generation_is_deterministic() {
    let project = router_project();
    let first = run_generation(&project, "/p", "/p/out", "**/*.router.ts", None).unwrap();
    let second = run_generation(&project, "/p", "/p/out", "**/*.router.ts", None).unwrap();
    assert_eq!(first.1, second.1);
}

#[test]
fn run_generation_without_matching_files_fails() {
    let project = router_project();
    let result = run_generation(&project, "/p", "/p/out", "**/*.service.ts", None);
    assert!(result.is_err());
}

#[test]
fn run_generation_without_router_classes_fails() {
    let project = Project {
        files: vec![ParsedFile {
            file_path: "/p/src/plain.router.ts".to_string(),
            module: Module { body: Vec::new() },
        }],
    };
    let result = run_generation(&project, "/p", "/p/out", "**/*.router.ts", None);
    assert!(result.is_err());
}

#[test]
fn server_file_path_keeps_file_outputs_and_extends_directories() {
    assert_eq!(server_file_path("/p/out/server.ts"), "/p/out/server.ts");
    assert_eq!(server_file_path("/p/out"), "/p/out/server.ts");
}

#[test]
fn test_scan_router_files() {
    let listing = DirectoryListing {
        entries: vec![
            DirEntry {
                path: "/base".to_string(),
                is_file: false,
            },
            DirEntry {
                path: "/base/src/user.router.ts".to_string(),
                is_file: true,
            },
            DirEntry {
                path: "/base/src/user.service.ts".to_string(),
                is_file: true,
            },
            DirEntry {
                path: "/base/.hidden/secret.router.ts".to_string(),
                is_file: true,
            },
            DirEntry {
                path: "/base/src/routers/auth.router.ts".to_string(),
                is_file: true,
            },
        ],
    };
    let scanner = FileScanner::new("/base", &listing).unwrap();
    let files = scanner.scan(&listing, "**/*.router.ts").unwrap();

    assert_eq!(
        files,
        vec![
            "/base/src/routers/auth.router.ts".to_string(),
            "/base/src/user.router.ts".to_string(),
        ]
    );
}

#[test]
fn test_scan_invalid_pattern() {
    let listing = DirectoryListing {
        entries: vec![DirEntry {
            path: "/base".to_string(),
            is_file: false,
        }],
    };
    let scanner = FileScanner::new("/base", &listing).unwrap();
    let result = scanner.scan(&listing, "**/*.router[.ts");
    assert!(matches!(
        result,
        Err(nestjs_trpc::error::ScannerError::InvalidPattern(_, _))
    ));
}

#[test]
fn test_scanner_not_a_directory() {
    let listing = DirectoryListing {
        entries: vec![DirEntry {
            path: "/base/file.txt".to_string(),
            is_file: true,
        }],
    };
    let result = FileScanner::new("/base/file.txt", &listing);
    assert!(matches!(
        result,
        Err(nestjs_trpc::error::ScannerError::NotADirectory(_))
    ));
}

#[test]
fn test_scanner_creation() {
    let listing = DirectoryListing {
        entries: vec![DirEntry {
            path: "/base".to_string(),
            is_file: false,
        }],
    };
    assert!(FileScanner::new("/base", &listing).is_ok());
}

#[test]
fn test_scan_no_matches() {
    let listing = DirectoryListing {
        entries: vec![
            DirEntry {
                path: "/base".to_string(),
                is_file: false,
            },
            DirEntry {
                path: "/base/src/user.service.ts".to_string(),
                is_file: true,
            },
        ],
    };
    let scanner = FileScanner::new("/base", &listing).unwrap();
    let files = scanner.scan(&listing, "**/*.nonexistent").unwrap();
    assert!(files.is_empty());
}

#[test]
fn test_scan_skips_hidden_directories() {
    let listing = DirectoryListing {
        entries: vec![
            DirEntry {
                path: "/base".to_string(),
                is_file: false,
            },
            DirEntry {
                path: "/base/.hidden/secret.router.ts".to_string(),
                is_file: true,
            },
            DirEntry {
                path: "/base/src/user.router.ts".to_string(),
                is_file: true,
            },
        ],
    };
    let scanner = FileScanner::new("/base", &listing).unwrap();
    let files = scanner.scan(&listing, "**/*.router.ts").unwrap();
    assert!(files.iter().all(|f| !f.contains(".hidden")));
    assert_eq!(files.len(), 1);
}

#[test]
fn test_scan_deterministic_order() {
    let listing = DirectoryListing {
        entries: vec![
            DirEntry {
                path: "/base".to_string(),
                is_file: false,
            },
            DirEntry {
                path: "/base/a.router.ts".to_string(),
                is_file: true,
            },
            DirEntry {
                path: "/base/b.router.ts".to_string(),
                is_file: true,
            },
        ],
    };
    let scanner = FileScanner::new("/base", &listing).unwrap();
    let first = scanner.scan(&listing, "**/*.router.ts").unwrap();
    let second = scanner.scan(&listing, "**/*.router.ts").unwrap();
    assert_eq!(first, second);
}

#[test]
fn test_base_dir_accessor() {
    let listing = DirectoryListing {
        entries: vec![DirEntry {
            path: "/base".to_string(),
            is_file: false,
        }],
    };
    let scanner = FileScanner::new("/base", &listing).unwrap();
    assert_eq!(scanner.base_dir(), "/base");
}

#[test]
fn discover_root_module_reports_searched_candidates() {
    let project = Project { files: Vec::new() };
    let result = nestjs_trpc::discovery::discover_root_module(&project, "/p", None, None);
    match result {
        Err(nestjs_trpc::error::ConfigError::ModuleNotFound { searched_paths }) => {
            assert_eq!(searched_paths.len(), 5);
            assert_eq!(searched_paths[0], "/p/src/main.ts");
        }
        other => panic!("expected module-not-found, got {other:?}"),
    }
}
