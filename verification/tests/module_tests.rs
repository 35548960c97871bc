use nestjs_trpc::ast::{
    ArrayLit, CallExpr, Callee, Class, ClassMember, ClassMethod, Decorator, Expr, ExprOrSpread,
    ImportDecl, ImportNamedSpecifier, ImportSpecifier, KeyValueProp, Lit, MemberExpr, MemberProp,
    Module, ModuleItem, ObjectLit, Prop, PropName, PropOrSpread, Stmt,
};
use nestjs_trpc::context::extract_context;
use nestjs_trpc::middleware::extract_middleware;
use nestjs_trpc::module::{extract_trpc_options, resolve_transformer_import};
use nestjs_trpc::project::ParsedFile;

fn kv(key: &str, value: Expr) -> PropOrSpread {
    PropOrSpread::Prop(Prop::KeyValue(Box::new(KeyValueProp {
        key: PropName::Ident(key.to_string()),
        value,
        text: String::new(),
    })))
}

fn object(props: Vec<PropOrSpread>) -> Expr {
    Expr::Object(ObjectLit {
        props,
        text: String::new(),
    })
}

fn for_root_call(options: Expr) -> Expr {
    Expr::Call(CallExpr {
        callee: Callee::Expr(Box::new(Expr::Member(MemberExpr {
            obj: Box::new(Expr::Ident("TRPCModule".to_string())),
            prop: MemberProp::Ident("forRoot".to_string()),
            text: "TRPCModule.forRoot".to_string(),
        }))),
        args: vec![ExprOrSpread {
            spread: false,
            expr: options,
        }],
        text: String::new(),
    })
}

fn app_module_file(options: Expr) -> ParsedFile {
    let module_decorator = Decorator {
        expr: Expr::Call(CallExpr {
            callee: Callee::Expr(Box::new(Expr::Ident("Module".to_string()))),
            args: vec![ExprOrSpread {
                spread: false,
                expr: object(vec![kv(
                    "imports",
                    Expr::Array(ArrayLit {
                        elems: vec![Some(ExprOrSpread {
                            spread: false,
                            expr: for_root_call(options),
                        })],
                        text: String::new(),
                    }),
                )]),
            }],
            text: String::new(),
        }),
    };
    ParsedFile {
        file_path: "/p/src/app.module.ts".to_string(),
        module: Module {
            body: vec![ModuleItem::ClassDecl {
                name: "AppModule".to_string(),
                class: Class {
                    decorators: vec![module_decorator],
                    body: Vec::new(),
                },
                exported: true,
            }],
        },
    }
}

#[test]
fn extracts_module_options() {
    let file = app_module_file(object(vec![
        kv("context", Expr::Ident("AppContext".to_string())),
        kv(
            "autoSchemaFile",
            Expr::Lit(
                Lit::Str("./src/@generated".to_string()),
                "'./src/@generated'".to_string(),
            ),
        ),
        kv("transformer", Expr::Ident("superjson".to_string())),
    ]));

    let options = extract_trpc_options(&file).expect("options should be found");
    assert_eq!(options.context_class_name, Some("AppContext".to_string()));
    assert_eq!(options.auto_schema_file, Some("./src/@generated".to_string()));
    assert_eq!(options.transformer_identifier, Some("superjson".to_string()));
}

#[test]
fn module_without_registration_yields_nothing() {
    let file = ParsedFile {
        file_path: "/p/src/app.module.ts".to_string(),
        module: Module { body: Vec::new() },
    };
    assert!(extract_trpc_options(&file).is_none());
}

#[test]
fn resolves_default_transformer_import() {
    let file = ParsedFile {
        file_path: "/p/src/app.module.ts".to_string(),
        module: Module {
            body: vec![ModuleItem::Import(ImportDecl {
                src: "superjson".to_string(),
                specifiers: vec![ImportSpecifier::Default("superjson".to_string())],
            })],
        },
    };
    let info = resolve_transformer_import(&file, "superjson").expect("should resolve");
    assert_eq!(info.package_name, "superjson");
    assert_eq!(info.import_name, "superjson");
    assert!(info.is_default_import);
}

#[test]
fn resolves_named_transformer_import() {
    let file = ParsedFile {
        file_path: "/p/src/app.module.ts".to_string(),
        module: Module {
            body: vec![ModuleItem::Import(ImportDecl {
                src: "./my-transformer".to_string(),
                specifiers: vec![ImportSpecifier::Named(ImportNamedSpecifier {
                    local: "customTransformer".to_string(),
                    imported: None,
                })],
            })],
        },
    };
    let info = resolve_transformer_import(&file, "customTransformer").expect("should resolve");
    assert_eq!(info.package_name, "./my-transformer");
    assert!(!info.is_default_import);
}

#[test]
fn unbound_transformer_yields_nothing() {
    let file = ParsedFile {
        file_path: "/p/src/app.module.ts".to_string(),
        module: Module { body: Vec::new() },
    };
    assert!(resolve_transformer_import(&file, "inlineTransformer").is_none());
}

fn class_with_method(class_name: &str, method_name: &str, body: Vec<Stmt>) -> ParsedFile {
    ParsedFile {
        file_path: "/p/src/app.context.ts".to_string(),
        module: Module {
            body: vec![ModuleItem::ClassDecl {
                name: class_name.to_string(),
                class: Class {
                    decorators: Vec::new(),
                    body: vec![ClassMember::Method(ClassMethod {
                        key: PropName::Ident(method_name.to_string()),
                        decorators: Vec::new(),
                        body: Some(body),
                    })],
                },
                exported: true,
            }],
        },
    }
}

#[test]
fn context_return_shape_is_rendered_structurally() {
    let returned = object(vec![
        kv("req", Expr::Ident("req".to_string())),
        kv(
            "auth",
            object(vec![kv(
                "user",
                Expr::Lit(Lit::Str("1".to_string()), "'1'".to_string()),
            )]),
        ),
    ]);
    let file = class_with_method("AppContext", "create", vec![Stmt::Return(Some(returned))]);

    let info = extract_context(&file, "AppContext").expect("context should be found");
    assert_eq!(info.class_name, "AppContext");
    assert_eq!(info.return_type, "{ req: unknown; auth: { user: string } }");
}

#[test]
fn context_without_create_method_yields_nothing() {
    let file = class_with_method("AppContext", "other", Vec::new());
    assert!(extract_context(&file, "AppContext").is_none());
}

#[test]
fn middleware_context_properties_are_collected() {
    let next_call = Expr::Call(CallExpr {
        callee: Callee::Expr(Box::new(Expr::Member(MemberExpr {
            obj: Box::new(Expr::Ident("opts".to_string())),
            prop: MemberProp::Ident("next".to_string()),
            text: "opts.next".to_string(),
        }))),
        args: vec![ExprOrSpread {
            spread: false,
            expr: object(vec![kv(
                "ctx",
                object(vec![
                    kv(
                        "requestId",
                        Expr::Lit(Lit::Str("abc".to_string()), "'abc'".to_string()),
                    ),
                    kv("user", Expr::Ident("user".to_string())),
                ]),
            )]),
        }],
        text: String::new(),
    });
    let file = ParsedFile {
        file_path: "/p/src/logging.middleware.ts".to_string(),
        module: Module {
            body: vec![ModuleItem::ClassDecl {
                name: "LoggingMiddleware".to_string(),
                class: Class {
                    decorators: Vec::new(),
                    body: vec![ClassMember::Method(ClassMethod {
                        key: PropName::Ident("use".to_string()),
                        decorators: Vec::new(),
                        body: Some(vec![Stmt::Return(Some(next_call))]),
                    })],
                },
                exported: true,
            }],
        },
    };

    let info = extract_middleware(&file, "LoggingMiddleware").expect("middleware should be found");
    assert_eq!(info.context_properties.len(), 2);
    assert_eq!(info.context_properties[0].name, "requestId");
    assert_eq!(info.context_properties[0].type_string, "string");
    assert_eq!(info.context_properties[1].name, "user");
    assert_eq!(info.context_properties[1].type_string, "user");
}
