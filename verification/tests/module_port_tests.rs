use nestjs_trpc::ast::{
    ArrayLit, CallExpr, Callee, Class, Expr, ExprOrSpread, ImportDecl, ImportNamedSpecifier,
    ImportSpecifier, KeyValueProp, Lit, MemberExpr, MemberProp, Module, ModuleItem, ObjectLit,
    Prop, PropName, PropOrSpread,
};
use nestjs_trpc::imports::module_resolution::resolve_module_path;
use nestjs_trpc::module::{extract_trpc_options, resolve_context_file, resolve_transformer_import};
use nestjs_trpc::project::{ParsedFile, Project};

fn kv(key: &str, value: Expr) -> PropOrSpread {
    PropOrSpread::Prop(Prop::KeyValue(Box::new(KeyValueProp {
        key: PropName::Ident(key.to_string()),
        value,
        text: String::new(),
    })))
}

fn object(props: Vec<PropOrSpread>) -> Expr {
    Expr::Object(ObjectLit {
        props,
        text: String::new(),
    })
}

fn string_lit(value: &str) -> Expr {
    Expr::Lit(Lit::Str(value.to_string()), format!("'{value}'"))
}

fn for_root(options: Option<Expr>) -> Expr {
    Expr::Call(CallExpr {
        callee: Callee::Expr(Box::new(Expr::Member(MemberExpr {
            obj: Box::new(Expr::Ident("TRPCModule".to_string())),
            prop: MemberProp::Ident("forRoot".to_string()),
            text: "TRPCModule.forRoot".to_string(),
        }))),
        args: options
            .into_iter()
            .map(|expr| ExprOrSpread {
                spread: false,
                expr,
            })
            .collect(),
        text: String::new(),
    })
}

fn module_class(imports: Vec<Expr>, exported: bool) -> ModuleItem {
    let decorator = nestjs_trpc::ast::Decorator {
        expr: Expr::Call(CallExpr {
            callee: Callee::Expr(Box::new(Expr::Ident("Module".to_string()))),
            args: vec![ExprOrSpread {
                spread: false,
                expr: object(vec![kv(
                    "imports",
                    Expr::Array(ArrayLit {
                        elems: imports
                            .into_iter()
                            .map(|expr| {
                                Some(ExprOrSpread {
                                    spread: false,
                                    expr,
                                })
                            })
                            .collect(),
                        text: String::new(),
                    }),
                )]),
            }],
            text: String::new(),
        }),
    };
    ModuleItem::ClassDecl {
        name: "AppModule".to_string(),
        class: Class {
            decorators: vec![decorator],
            body: Vec::new(),
        },
        exported,
    }
}

fn app_file(items: Vec<ModuleItem>) -> ParsedFile {
    ParsedFile {
        file_path: "/p/src/app.module.ts".to_string(),
        module: Module { body: items },
    }
}

#[test]
fn test_extract_trpc_options_with_context() {
    let file = app_file(vec![module_class(
        vec![for_root(Some(object(vec![
            kv("context", Expr::Ident("AppContext".to_string())),
            kv("autoSchemaFile", string_lit("./generated")),
        ])))],
        true,
    )]);

    let options = extract_trpc_options(&file).expect("options should be found");
    assert_eq!(options.context_class_name, Some("AppContext".to_string()));
    assert_eq!(options.auto_schema_file, Some("./generated".to_string()));
}

#[test]
fn test_extract_trpc_options_without_context() {
    let file = app_file(vec![module_class(
        vec![for_root(Some(object(vec![kv(
            "autoSchemaFile",
            string_lit("./generated"),
        )])))],
        true,
    )]);

    let options = extract_trpc_options(&file).expect("options should be found");
    assert_eq!(options.context_class_name, None);
    assert_eq!(options.auto_schema_file, Some("./generated".to_string()));
}

#[test]
fn test_no_trpc_module() {
    let file = app_file(vec![module_class(Vec::new(), true)]);
    assert!(extract_trpc_options(&file).is_none());
}

#[test]
fn test_module_with_multiple_imports() {
    let other_import = Expr::Ident("ConfigModule".to_string());
    let file = app_file(vec![module_class(
        vec![
            other_import,
            for_root(Some(object(vec![kv(
                "context",
                Expr::Ident("AppContext".to_string()),
            )]))),
        ],
        true,
    )]);

    let options = extract_trpc_options(&file).expect("options should be found");
    assert_eq!(options.context_class_name, Some("AppContext".to_string()));
}

#[test]
fn test_non_exported_module() {
    let file = app_file(vec![module_class(
        vec![for_root(Some(object(vec![kv(
            "context",
            Expr::Ident("AppContext".to_string()),
        )])))],
        false,
    )]);

    assert!(extract_trpc_options(&file).is_some());
}

#[test]
fn test_empty_module_returns_none() {
    let file = app_file(Vec::new());
    assert!(extract_trpc_options(&file).is_none());
}

#[test]
fn test_module_without_decorator_returns_none() {
    let file = app_file(vec![ModuleItem::ClassDecl {
        name: "AppModule".to_string(),
        class: Class {
            decorators: Vec::new(),
            body: Vec::new(),
        },
        exported: true,
    }]);
    assert!(extract_trpc_options(&file).is_none());
}

#[test]
fn test_module_with_empty_imports_returns_none() {
    let file = app_file(vec![module_class(Vec::new(), true)]);
    assert!(extract_trpc_options(&file).is_none());
}

#[test]
fn test_module_with_non_trpc_imports_returns_none() {
    let file = app_file(vec![module_class(
        vec![Expr::Ident("ConfigModule".to_string())],
        true,
    )]);
    assert!(extract_trpc_options(&file).is_none());
}

#[test]
fn test_trpc_module_with_empty_options() {
    let file = app_file(vec![module_class(
        vec![for_root(Some(object(Vec::new())))],
        true,
    )]);

    let options = extract_trpc_options(&file).expect("options should be found");
    assert_eq!(options.context_class_name, None);
    assert_eq!(options.auto_schema_file, None);
    assert_eq!(options.transformer_identifier, None);
}

#[test]
fn test_trpc_module_only_context() {
    let file = app_file(vec![module_class(
        vec![for_root(Some(object(vec![kv(
            "context",
            Expr::Ident("AppContext".to_string()),
        )])))],
        true,
    )]);

    let options = extract_trpc_options(&file).expect("options should be found");
    assert_eq!(options.context_class_name, Some("AppContext".to_string()));
    assert_eq!(options.auto_schema_file, None);
}

#[test]
fn test_trpc_module_only_auto_schema() {
    let file = app_file(vec![module_class(
        vec![for_root(Some(object(vec![kv(
            "autoSchemaFile",
            string_lit("./out"),
        )])))],
        true,
    )]);

    let options = extract_trpc_options(&file).expect("options should be found");
    assert_eq!(options.context_class_name, None);
    assert_eq!(options.auto_schema_file, Some("./out".to_string()));
}

#[test]
fn test_resolve_context_file() {
    let project = Project {
        files: vec![
            ParsedFile {
                file_path: "/p/src/app.module.ts".to_string(),
                module: Module {
                    body: vec![ModuleItem::Import(ImportDecl {
                        src: "./app.context".to_string(),
                        specifiers: vec![ImportSpecifier::Named(ImportNamedSpecifier {
                            local: "AppContext".to_string(),
                            imported: None,
                        })],
                    })],
                },
            },
            ParsedFile {
                file_path: "/p/src/app.context.ts".to_string(),
                module: Module { body: Vec::new() },
            },
        ],
    };

    let resolved = resolve_context_file(&project, &project.files[0], "AppContext");
    assert_eq!(resolved, Some("/p/src/app.context.ts".to_string()));
}

#[test]
fn test_resolve_context_file_missing_import() {
    let project = Project {
        files: vec![ParsedFile {
            file_path: "/p/src/app.module.ts".to_string(),
            module: Module { body: Vec::new() },
        }],
    };

    let resolved = resolve_context_file(&project, &project.files[0], "AppContext");
    assert!(resolved.is_none());
}

#[test]
fn test_resolve_context_file_external_module() {
    let project = Project {
        files: vec![ParsedFile {
            file_path: "/p/src/app.module.ts".to_string(),
            module: Module {
                body: vec![ModuleItem::Import(ImportDecl {
                    src: "some-package".to_string(),
                    specifiers: vec![ImportSpecifier::Named(ImportNamedSpecifier {
                        local: "AppContext".to_string(),
                        imported: None,
                    })],
                })],
            },
        }],
    };

    let resolved = resolve_context_file(&project, &project.files[0], "AppContext");
    assert!(resolved.is_none());
}

#[test]
fn test_resolve_context_file_nonexistent_file() {
    let project = Project {
        files: vec![ParsedFile {
            file_path: "/p/src/app.module.ts".to_string(),
            module: Module {
                body: vec![ModuleItem::Import(ImportDecl {
                    src: "./missing.context".to_string(),
                    specifiers: vec![ImportSpecifier::Named(ImportNamedSpecifier {
                        local: "AppContext".to_string(),
                        imported: None,
                    })],
                })],
            },
        }],
    };

    let resolved = resolve_context_file(&project, &project.files[0], "AppContext");
    assert!(resolved.is_none());
}

#[test]
fn test_extract_transformer_identifier() {
    let file = app_file(vec![module_class(
        vec![for_root(Some(object(vec![kv(
            "transformer",
            Expr::Ident("superjson".to_string()),
        )])))],
        true,
    )]);

    let options = extract_trpc_options(&file).expect("options should be found");
    assert_eq!(options.transformer_identifier, Some("superjson".to_string()));
}

#[test]
fn test_extract_transformer_with_context() {
    let file = app_file(vec![module_class(
        vec![for_root(Some(object(vec![
            kv("context", Expr::Ident("AppContext".to_string())),
            kv("transformer", Expr::Ident("superjson".to_string())),
        ])))],
        true,
    )]);

    let options = extract_trpc_options(&file).expect("options should be found");
    assert_eq!(options.context_class_name, Some("AppContext".to_string()));
    assert_eq!(options.transformer_identifier, Some("superjson".to_string()));
}

#[test]
fn test_no_transformer_returns_none() {
    let file = app_file(vec![module_class(
        vec![for_root(Some(object(vec![kv(
            "context",
            Expr::Ident("AppContext".to_string()),
        )])))],
        true,
    )]);

    let options = extract_trpc_options(&file).expect("options should be found");
    assert_eq!(options.transformer_identifier, None);
}

#[test]
fn test_resolve_transformer_default_import() {
    let file = ParsedFile {
        file_path: "/p/src/app.module.ts".to_string(),
        module: Module {
            body: vec![ModuleItem::Import(ImportDecl {
                src: "superjson".to_string(),
                specifiers: vec![ImportSpecifier::Default("superjson".to_string())],
            })],
        },
    };
    let info = resolve_transformer_import(&file, "superjson").expect("should resolve");
    assert!(info.is_default_import);
    assert_eq!(info.package_name, "superjson");
}

#[test]
fn test_resolve_transformer_named_import() {
    let file = ParsedFile {
        file_path: "/p/src/app.module.ts".to_string(),
        module: Module {
            body: vec![ModuleItem::Import(ImportDecl {
                src: "custom-transformer".to_string(),
                specifiers: vec![ImportSpecifier::Named(ImportNamedSpecifier {
                    local: "myTransformer".to_string(),
                    imported: None,
                })],
            })],
        },
    };
    let info = resolve_transformer_import(&file, "myTransformer").expect("should resolve");
    assert!(!info.is_default_import);
    assert_eq!(info.package_name, "custom-transformer");
}

#[test]
fn test_resolve_transformer_not_imported() {
    let file = app_file(Vec::new());
    assert!(resolve_transformer_import(&file, "superjson").is_none());
}

#[test]
fn test_resolve_with_ts_extension() {
    let project = Project {
        files: vec![ParsedFile {
            file_path: "/p/schema.ts".to_string(),
            module: Module { body: Vec::new() },
        }],
    };
    let resolved = resolve_module_path(&project, "/p", "./schema");
    assert_eq!(resolved, Some("/p/schema.ts".to_string()));
}

#[test]
fn test_resolve_with_tsx_extension() {
    let project = Project {
        files: vec![ParsedFile {
            file_path: "/p/component.tsx".to_string(),
            module: Module { body: Vec::new() },
        }],
    };
    let resolved = resolve_module_path(&project, "/p", "./component");
    assert_eq!(resolved, Some("/p/component.tsx".to_string()));
}

#[test]
fn test_resolve_index_file() {
    let project = Project {
        files: vec![ParsedFile {
            file_path: "/p/schemas/index.ts".to_string(),
            module: Module { body: Vec::new() },
        }],
    };
    let resolved = resolve_module_path(&project, "/p", "./schemas");
    assert_eq!(resolved, Some("/p/schemas/index.ts".to_string()));
}

#[test]
fn test_resolve_nonexistent() {
    let project = Project { files: Vec::new() };
    let resolved = resolve_module_path(&project, "/p", "./nonexistent");
    assert!(resolved.is_none());
}
