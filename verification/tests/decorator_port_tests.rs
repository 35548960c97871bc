use nestjs_trpc::ast::{
    CallExpr, Callee, Class, ClassMember, ClassMethod, Decorator, Expr, ExprOrSpread,
    KeyValueProp, Module, ModuleItem, ObjectLit, Prop, PropName, PropOrSpread,
};
use nestjs_trpc::decorator::DecoratorParser;
use nestjs_trpc::procedure::extract_procedures_from_class;
use nestjs_trpc::project::ParsedFile;
use nestjs_trpc::ProcedureType;

fn ident(name: &str) -> Expr {
    Expr::Ident(name.to_string())
}

fn kv(key: &str, value: Expr, text: &str) -> PropOrSpread {
    PropOrSpread::Prop(Prop::KeyValue(Box::new(KeyValueProp {
        key: PropName::Ident(key.to_string()),
        value,
        text: text.to_string(),
    })))
}

fn schema(text: &str) -> Expr {
    Expr::Call(CallExpr {
        callee: Callee::Other,
        args: Vec::new(),
        text: text.to_string(),
    })
}

fn call_decorator(name: &str, args: Vec<Expr>) -> Decorator {
    Decorator {
        expr: Expr::Call(CallExpr {
            callee: Callee::Expr(Box::new(ident(name))),
            args: args
                .into_iter()
                .map(|expr| ExprOrSpread {
                    spread: false,
                    expr,
                })
                .collect(),
            text: String::new(),
        }),
    }
}

fn object(props: Vec<PropOrSpread>) -> Expr {
    Expr::Object(ObjectLit {
        props,
        text: String::new(),
    })
}

fn extract(decorators: Vec<Decorator>) -> Vec<nestjs_trpc::decorator::ProcedureDecoratorInfo> {
    DecoratorParser::new().extract_procedure_decorators(&decorators)
}

#[test]
fn test_extract_query_decorator_with_input() {
    let results = extract(vec![call_decorator(
        "Query",
        vec![object(vec![kv(
            "input",
            schema("z.object({ userId: z.string() })"),
            "input: z.object({ userId: z.string() })",
        )])],
    )]);

    assert_eq!(results.len(), 1);
    assert_eq!(results[0].procedure_type, ProcedureType::Query);
    assert!(results[0].input.is_some());
    assert!(results[0].input.as_ref().unwrap().contains("z.object"));
    assert!(results[0].input.as_ref().unwrap().contains("userId"));
    assert!(results[0].output.is_none());
}

#[test]
fn test_extract_query_decorator_with_input_and_output() {
    let results = extract(vec![call_decorator(
        "Query",
        vec![object(vec![
            kv(
                "input",
                schema("z.object({ userId: z.string() })"),
                "input: z.object({ userId: z.string() })",
            ),
            kv(
                "output",
                schema("z.object({ name: z.string() })"),
                "output: z.object({ name: z.string() })",
            ),
        ])],
    )]);

    assert_eq!(results.len(), 1);
    assert_eq!(results[0].procedure_type, ProcedureType::Query);
    assert!(results[0].input.is_some());
    assert!(results[0].output.is_some());
    assert!(results[0].output.as_ref().unwrap().contains("name"));
}

#[test]
fn test_extract_mutation_decorator() {
    let results = extract(vec![call_decorator(
        "Mutation",
        vec![object(vec![kv(
            "input",
            schema("z.object({ name: z.string() })"),
            "input: z.object({ name: z.string() })",
        )])],
    )]);

    assert_eq!(results.len(), 1);
    assert_eq!(results[0].procedure_type, ProcedureType::Mutation);
    assert!(results[0].input.is_some());
}

#[test]
fn test_extract_query_without_arguments() {
    let results = extract(vec![call_decorator("Query", Vec::new())]);

    assert_eq!(results.len(), 1);
    assert_eq!(results[0].procedure_type, ProcedureType::Query);
    assert!(results[0].input.is_none());
    assert!(results[0].output.is_none());
}

#[test]
fn test_extract_query_no_parentheses() {
    let results = extract(vec![Decorator {
        expr: ident("Query"),
    }]);

    assert_eq!(results.len(), 1);
    assert_eq!(results[0].procedure_type, ProcedureType::Query);
    assert!(results[0].input.is_none());
}

#[test]
fn test_ignore_non_procedure_decorators() {
    let results = extract(vec![
        call_decorator("UseGuards", vec![schema("'admin'")]),
        call_decorator(
            "Query",
            vec![object(vec![kv(
                "input",
                schema("z.string()"),
                "input: z.string()",
            )])],
        ),
    ]);

    assert_eq!(results.len(), 1);
    assert_eq!(results[0].procedure_type, ProcedureType::Query);
}

#[test]
fn test_extract_with_variable_reference() {
    let results = extract(vec![call_decorator(
        "Query",
        vec![object(vec![
            kv(
                "input",
                ident("userInputSchema"),
                "input: userInputSchema",
            ),
            kv("output", ident("userSchema"), "output: userSchema"),
        ])],
    )]);

    assert_eq!(results.len(), 1);
    assert_eq!(results[0].input, Some("userInputSchema".to_string()));
    assert_eq!(results[0].output, Some("userSchema".to_string()));
}

#[test]
fn test_extract_output_only() {
    let results = extract(vec![call_decorator(
        "Query",
        vec![object(vec![kv(
            "output",
            schema("z.array(z.string())"),
            "output: z.array(z.string())",
        )])],
    )]);

    assert_eq!(results.len(), 1);
    assert!(results[0].input.is_none());
    assert!(results[0].output.is_some());
    assert!(results[0].output.as_ref().unwrap().contains("z.array"));
}

#[test]
fn test_extract_multiple_methods() {
    let results1 = extract(vec![call_decorator(
        "Query",
        vec![object(vec![kv(
            "input",
            schema("z.string()"),
            "input: z.string()",
        )])],
    )]);
    assert_eq!(results1.len(), 1);
    assert_eq!(results1[0].procedure_type, ProcedureType::Query);

    let results2 = extract(vec![call_decorator(
        "Mutation",
        vec![object(vec![kv(
            "input",
            schema("z.object({ name: z.string() })"),
            "input: z.object({ name: z.string() })",
        )])],
    )]);
    assert_eq!(results2.len(), 1);
    assert_eq!(results2[0].procedure_type, ProcedureType::Mutation);
}

fn router_file(item: ModuleItem) -> ParsedFile {
    ParsedFile {
        file_path: "/p/test.ts".to_string(),
        module: Module { body: vec![item] },
    }
}

fn method(name: &str, decorators: Vec<Decorator>) -> ClassMember {
    ClassMember::Method(ClassMethod {
        key: PropName::Ident(name.to_string()),
        decorators,
        body: None,
    })
}

#[test]
fn test_extract_procedures_from_exported_class() {
    let file = router_file(ModuleItem::ClassDecl {
        name: "UserRouter".to_string(),
        class: Class {
            decorators: vec![call_decorator("Router", Vec::new())],
            body: vec![
                method(
                    "getUser",
                    vec![call_decorator(
                        "Query",
                        vec![object(vec![
                            kv(
                                "input",
                                schema("z.object({ id: z.string() })"),
                                "input: z.object({ id: z.string() })",
                            ),
                            kv(
                                "output",
                                schema("z.object({ name: z.string() })"),
                                "output: z.object({ name: z.string() })",
                            ),
                        ])],
                    )],
                ),
                method(
                    "createUser",
                    vec![call_decorator(
                        "Mutation",
                        vec![object(vec![kv(
                            "input",
                            schema("z.object({ name: z.string() })"),
                            "input: z.object({ name: z.string() })",
                        )])],
                    )],
                ),
            ],
        },
        exported: true,
    });

    let procedures = extract_procedures_from_class(&file, "UserRouter", &DecoratorParser::new());

    assert_eq!(procedures.len(), 2);
    assert_eq!(procedures[0].name, "getUser");
    assert_eq!(procedures[0].procedure_type, ProcedureType::Query);
    assert!(procedures[0].input_schema.is_some());
    assert!(procedures[0].output_schema.is_some());

    assert_eq!(procedures[1].name, "createUser");
    assert_eq!(procedures[1].procedure_type, ProcedureType::Mutation);
    assert!(procedures[1].input_schema.is_some());
}

#[test]
fn test_extract_procedures_from_non_exported_class() {
    let file = router_file(ModuleItem::ClassDecl {
        name: "PostRouter".to_string(),
        class: Class {
            decorators: vec![call_decorator("Router", Vec::new())],
            body: vec![method(
                "getPost",
                vec![call_decorator(
                    "Query",
                    vec![object(vec![kv(
                        "input",
                        schema("z.object({ id: z.string() })"),
                        "input: z.object({ id: z.string() })",
                    )])],
                )],
            )],
        },
        exported: false,
    });

    let procedures = extract_procedures_from_class(&file, "PostRouter", &DecoratorParser::new());

    assert_eq!(procedures.len(), 1);
    assert_eq!(procedures[0].name, "getPost");
    assert_eq!(procedures[0].procedure_type, ProcedureType::Query);
}

#[test]
fn test_extract_procedures_from_default_export() {
    let file = router_file(ModuleItem::DefaultClass {
        name: Some("MainRouter".to_string()),
        class: Class {
            decorators: vec![call_decorator("Router", Vec::new())],
            body: vec![method("ping", vec![call_decorator("Query", Vec::new())])],
        },
    });

    let procedures = extract_procedures_from_class(&file, "MainRouter", &DecoratorParser::new());

    assert_eq!(procedures.len(), 1);
    assert_eq!(procedures[0].name, "ping");
}

#[test]
fn duplicate_decorators_yield_two_entries() {
    let file = router_file(ModuleItem::ClassDecl {
        name: "UserRouter".to_string(),
        class: Class {
            decorators: vec![call_decorator("Router", Vec::new())],
            body: vec![method(
                "getUser",
                vec![
                    call_decorator("Query", Vec::new()),
                    call_decorator("Mutation", Vec::new()),
                ],
            )],
        },
        exported: true,
    });

    let procedures = extract_procedures_from_class(&file, "UserRouter", &DecoratorParser::new());

    assert_eq!(procedures.len(), 2);
    assert_eq!(procedures[0].name, "getUser");
    assert_eq!(procedures[0].procedure_type, ProcedureType::Query);
    assert_eq!(procedures[1].name, "getUser");
    assert_eq!(procedures[1].procedure_type, ProcedureType::Mutation);
}
