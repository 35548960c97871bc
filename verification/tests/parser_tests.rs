use nestjs_trpc::ast::{
    CallExpr, Callee, Class, ClassMember, ClassMethod, Decorator, Expr, KeyValueProp, Lit,
    Module, ModuleItem, ObjectLit, Prop, PropName, PropOrSpread, TplExpr,
};
use nestjs_trpc::decorator::{is_procedure_decorator, DecoratorParser, ProcedureDecoratorInfo};
use nestjs_trpc::procedure::extract_procedures_from_class;
use nestjs_trpc::project::ParsedFile;
use nestjs_trpc::router::{extract_routers, RouterInfo, RouterParser};
use nestjs_trpc::ProcedureType;

fn kv(key: &str, value: Expr) -> PropOrSpread {
    PropOrSpread::Prop(Prop::KeyValue(Box::new(KeyValueProp {
        key: PropName::Ident(key.to_string()),
        value,
        text: String::new(),
    })))
}

fn ident(name: &str) -> Expr {
    Expr::Ident(name.to_string())
}

fn call_decorator(name: &str, args: Vec<Expr>) -> Decorator {
    Decorator {
        expr: Expr::Call(CallExpr {
            callee: Callee::Expr(Box::new(ident(name))),
            args: args
                .into_iter()
                .map(|expr| nestjs_trpc::ast::ExprOrSpread {
                    spread: false,
                    expr,
                })
                .collect(),
            text: String::new(),
        }),
    }
}

fn object(props: Vec<PropOrSpread>) -> Expr {
    Expr::Object(ObjectLit {
        props,
        text: String::new(),
    })
}

fn schema_call(text: &str) -> Expr {
    Expr::Call(CallExpr {
        callee: Callee::Other,
        args: Vec::new(),
        text: text.to_string(),
    })
}

fn router_class_file(decorators: Vec<Decorator>, class_name: &str) -> ParsedFile {
    ParsedFile {
        file_path: "/p/test.router.ts".to_string(),
        module: Module {
            body: vec![ModuleItem::ClassDecl {
                name: class_name.to_string(),
                class: Class {
                    decorators,
                    body: Vec::new(),
                },
                exported: true,
            }],
        },
    }
}

#[test]
fn test_decorator_parser_creation() {
    let parser = DecoratorParser::new();
    assert_eq!(std::mem::size_of_val(&parser), 0);
}

#[test]
fn test_decorator_parser_default() {
    let parser = DecoratorParser {};
    assert_eq!(std::mem::size_of_val(&parser), 0);
}

#[test]
fn test_procedure_decorator_info_equality() {
    let info1 = ProcedureDecoratorInfo {
        procedure_type: ProcedureType::Query,
        input: Some("z.string()".to_string()),
        output: None,
        input_ref: None,
        output_ref: None,
    };
    let info2 = ProcedureDecoratorInfo {
        procedure_type: ProcedureType::Query,
        input: Some("z.string()".to_string()),
        output: None,
        input_ref: None,
        output_ref: None,
    };
    assert_eq!(info1, info2);
}

#[test]
fn test_procedure_decorator_info_clone() {
    let info = ProcedureDecoratorInfo {
        procedure_type: ProcedureType::Mutation,
        input: Some("z.object({})".to_string()),
        output: Some("z.void()".to_string()),
        input_ref: None,
        output_ref: None,
    };
    let cloned = info.clone();
    assert_eq!(info, cloned);
}

#[test]
fn test_procedure_decorator_info_debug() {
    let info = ProcedureDecoratorInfo {
        procedure_type: ProcedureType::Query,
        input: Some("test".to_string()),
        output: None,
        input_ref: None,
        output_ref: None,
    };
    let debug_str = format!("{info:?}");
    assert!(debug_str.contains("Query"));
    assert!(debug_str.contains("test"));
}

#[test]
fn test_router_parser_creation() {
    let parser = RouterParser::new();
    assert_eq!(std::mem::size_of_val(&parser), 0);
}

#[test]
fn test_router_parser_default() {
    let parser = RouterParser {};
    assert_eq!(std::mem::size_of_val(&parser), 0);
}

#[test]
fn test_router_info_equality() {
    let info1 = RouterInfo {
        class_name: "Test".to_string(),
        alias: Some("test".to_string()),
        file_path: "test.ts".to_string(),
    };
    let info2 = RouterInfo {
        class_name: "Test".to_string(),
        alias: Some("test".to_string()),
        file_path: "test.ts".to_string(),
    };
    assert_eq!(info1, info2);
}

#[test]
fn test_router_info_clone() {
    let info = RouterInfo {
        class_name: "Test".to_string(),
        alias: Some("test".to_string()),
        file_path: "test.ts".to_string(),
    };
    let cloned = info.clone();
    assert_eq!(info, cloned);
}

#[test]
fn test_router_info_debug() {
    let info = RouterInfo {
        class_name: "Test".to_string(),
        alias: Some("test".to_string()),
        file_path: "test.ts".to_string(),
    };
    let debug_str = format!("{info:?}");
    assert!(debug_str.contains("Test"));
    assert!(debug_str.contains("test"));
}

#[test]
fn test_extract_router_with_alias() {
    let file = router_class_file(
        vec![call_decorator(
            "Router",
            vec![object(vec![kv(
                "alias",
                Expr::Lit(Lit::Str("users".to_string()), "'users'".to_string()),
            )])],
        )],
        "UserRouter",
    );

    let routers = extract_routers(&file);

    assert_eq!(routers.len(), 1);
    assert_eq!(routers[0].class_name, "UserRouter");
    assert_eq!(routers[0].alias, Some("users".to_string()));
}

#[test]
fn test_extract_router_without_alias() {
    let file = router_class_file(vec![call_decorator("Router", vec![])], "UserRouter");

    let routers = extract_routers(&file);

    assert_eq!(routers.len(), 1);
    assert_eq!(routers[0].class_name, "UserRouter");
    assert_eq!(routers[0].alias, None);
}

#[test]
fn test_extract_router_no_parentheses() {
    let file = router_class_file(
        vec![Decorator {
            expr: ident("Router"),
        }],
        "UserRouter",
    );

    let routers = extract_routers(&file);

    assert_eq!(routers.len(), 1);
    assert_eq!(routers[0].class_name, "UserRouter");
    assert_eq!(routers[0].alias, None);
}

#[test]
fn template_alias_with_interpolation_is_dropped() {
    let file = router_class_file(
        vec![call_decorator(
            "Router",
            vec![object(vec![kv(
                "alias",
                Expr::Tpl(TplExpr {
                    quasis: vec!["user".to_string(), "s".to_string()],
                    expr_count: 1,
                    text: "`user${x}s`".to_string(),
                }),
            )])],
        )],
        "UserRouter",
    );

    let routers = extract_routers(&file);

    assert_eq!(routers.len(), 1);
    assert_eq!(routers[0].alias, None);
}

#[test]
fn plain_template_alias_is_kept() {
    let file = router_class_file(
        vec![call_decorator(
            "Router",
            vec![object(vec![kv(
                "alias",
                Expr::Tpl(TplExpr {
                    quasis: vec!["users".to_string()],
                    expr_count: 0,
                    text: "`users`".to_string(),
                }),
            )])],
        )],
        "UserRouter",
    );

    let routers = extract_routers(&file);

    assert_eq!(routers[0].alias, Some("users".to_string()));
}

#[test]
fn test_is_procedure_decorator() {
    let query = call_decorator("Query", vec![]);
    let other = call_decorator("UseGuards", vec![]);
    assert!(is_procedure_decorator(&query));
    assert!(!is_procedure_decorator(&other));
}

#[test]
fn extract_procedures_reads_decorated_methods() {
    let query_decorator = call_decorator(
        "Query",
        vec![object(vec![
            kv("input", schema_call("z.object({ id: z.string() })")),
            kv("output", schema_call("z.object({ name: z.string() })")),
        ])],
    );
    let mutation_decorator = call_decorator(
        "Mutation",
        vec![object(vec![kv(
            "input",
            schema_call("z.object({ name: z.string() })"),
        )])],
    );
    let file = ParsedFile {
        file_path: "/p/user.router.ts".to_string(),
        module: Module {
            body: vec![ModuleItem::ClassDecl {
                name: "UserRouter".to_string(),
                class: Class {
                    decorators: vec![call_decorator("Router", vec![])],
                    body: vec![
                        ClassMember::Method(ClassMethod {
                            key: PropName::Ident("getUser".to_string()),
                            decorators: vec![query_decorator],
                            body: None,
                        }),
                        ClassMember::Method(ClassMethod {
                            key: PropName::Ident("createUser".to_string()),
                            decorators: vec![mutation_decorator],
                            body: None,
                        }),
                    ],
                },
                exported: true,
            }],
        },
    };

    let procedures = extract_procedures_from_class(&file, "UserRouter", &DecoratorParser::new());

    assert_eq!(procedures.len(), 2);
    assert_eq!(procedures[0].name, "getUser");
    assert_eq!(procedures[0].procedure_type, ProcedureType::Query);
    assert_eq!(
        procedures[0].input_schema,
        Some("z.object({ id: z.string() })".to_string())
    );
    assert!(procedures[0].output_schema.is_some());
    assert_eq!(procedures[1].name, "createUser");
    assert_eq!(procedures[1].procedure_type, ProcedureType::Mutation);
}

#[test]
fn bare_identifier_schema_records_its_reference() {
    let query_decorator = call_decorator(
        "Query",
        vec![object(vec![
            kv("input", ident("userInputSchema")),
            kv("output", ident("userSchema")),
        ])],
    );
    let file = ParsedFile {
        file_path: "/p/user.router.ts".to_string(),
        module: Module {
            body: vec![ModuleItem::ClassDecl {
                name: "UserRouter".to_string(),
                class: Class {
                    decorators: vec![call_decorator("Router", vec![])],
                    body: vec![ClassMember::Method(ClassMethod {
                        key: PropName::Ident("getUser".to_string()),
                        decorators: vec![query_decorator],
                        body: None,
                    })],
                },
                exported: true,
            }],
        },
    };

    let procedures = extract_procedures_from_class(&file, "UserRouter", &DecoratorParser::new());

    assert_eq!(procedures.len(), 1);
    assert_eq!(procedures[0].input_schema, Some("userInputSchema".to_string()));
    assert_eq!(
        procedures[0].input_schema_ref,
        Some("userInputSchema".to_string())
    );
    assert_eq!(procedures[0].output_schema_ref, Some("userSchema".to_string()));
}
