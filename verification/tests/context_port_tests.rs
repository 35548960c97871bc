use nestjs_trpc::ast::{
    ArrayLit, CallExpr, Callee, Class, ClassMember, ClassMethod, Expr, ExprOrSpread,
    KeyValueProp, Lit, MemberExpr, MemberProp, Module, ModuleItem, ObjectLit, Prop, PropName,
    PropOrSpread, Stmt,
};
use nestjs_trpc::context::extract_context;
use nestjs_trpc::middleware::extract_middleware;
use nestjs_trpc::project::ParsedFile;

fn kv(key: &str, value: Expr) -> PropOrSpread {
    PropOrSpread::Prop(Prop::KeyValue(Box::new(KeyValueProp {
        key: PropName::Ident(key.to_string()),
        value,
        text: String::new(),
    })))
}

fn object(props: Vec<PropOrSpread>) -> Expr {
    Expr::Object(ObjectLit {
        props,
        text: String::new(),
    })
}

fn string_lit(value: &str) -> Expr {
    Expr::Lit(Lit::Str(value.to_string()), format!("'{value}'"))
}

fn bool_lit(value: bool) -> Expr {
    Expr::Lit(Lit::Bool(value), format!("{value}"))
}

fn number_lit(value: &str) -> Expr {
    Expr::Lit(Lit::Num(value.to_string()), value.to_string())
}

fn class_file(name: &str, method: &str, body: Vec<Stmt>, exported: bool) -> ParsedFile {
    ParsedFile {
        file_path: "/p/src/app.context.ts".to_string(),
        module: Module {
            body: vec![ModuleItem::ClassDecl {
                name: name.to_string(),
                class: Class {
                    decorators: Vec::new(),
                    body: vec![ClassMember::Method(ClassMethod {
                        key: PropName::Ident(method.to_string()),
                        decorators: Vec::new(),
                        body: Some(body),
                    })],
                },
                exported,
            }],
        },
    }
}

fn opts_next(ctx_props: Vec<PropOrSpread>) -> Expr {
    Expr::Call(CallExpr {
        callee: Callee::Expr(Box::new(Expr::Member(MemberExpr {
            obj: Box::new(Expr::Ident("opts".to_string())),
            prop: MemberProp::Ident("next".to_string()),
            text: "opts.next".to_string(),
        }))),
        args: vec![ExprOrSpread {
            spread: false,
            expr: object(vec![kv("ctx", object(ctx_props))]),
        }],
        text: String::new(),
    })
}

#[test]
fn test_extract_context_simple_return() {
    let file = class_file(
        "SimpleContext",
        "create",
        vec![Stmt::Return(Some(object(vec![kv(
            "userId",
            string_lit("123"),
        )])))],
        true,
    );

    let info = extract_context(&file, "SimpleContext").expect("context should be found");
    assert_eq!(info.class_name, "SimpleContext");
    assert!(info.return_type.contains("userId: string"));
}

#[test]
fn test_extract_context_class_not_found() {
    let file = class_file(
        "SomeOtherClass",
        "create",
        vec![Stmt::Return(Some(object(Vec::new())))],
        true,
    );
    assert!(extract_context(&file, "AppContext").is_none());
}

#[test]
fn test_extract_context_no_create_method() {
    let file = class_file(
        "AppContext",
        "initialize",
        vec![Stmt::Return(Some(object(Vec::new())))],
        true,
    );
    assert!(extract_context(&file, "AppContext").is_none());
}

#[test]
fn test_extract_context_non_exported() {
    let file = class_file(
        "AppContext",
        "create",
        vec![Stmt::Return(Some(object(vec![kv(
            "hidden",
            bool_lit(true),
        )])))],
        false,
    );

    let info = extract_context(&file, "AppContext").expect("context should be found");
    assert!(info.return_type.contains("hidden: boolean"));
}

#[test]
fn context_return_found_through_if_and_try() {
    let returned = object(vec![kv("flag", bool_lit(true))]);
    let file = class_file(
        "AppContext",
        "create",
        vec![Stmt::Try {
            block: vec![Stmt::If {
                cons: Box::new(Stmt::Return(Some(returned))),
                alt: None,
            }],
            handler: None,
        }],
        true,
    );

    let info = extract_context(&file, "AppContext").expect("context should be found");
    assert_eq!(info.return_type, "{ flag: boolean }");
}

#[test]
fn test_extract_middleware_with_context() {
    let file = class_file(
        "ProtectedMiddleware",
        "use",
        vec![Stmt::Return(Some(opts_next(vec![kv(
            "ben",
            number_lit("1"),
        )])))],
        true,
    );

    let info =
        extract_middleware(&file, "ProtectedMiddleware").expect("middleware should be found");
    assert_eq!(info.class_name, "ProtectedMiddleware");
    assert_eq!(info.context_properties.len(), 1);
    assert_eq!(info.context_properties[0].name, "ben");
    assert_eq!(info.context_properties[0].type_string, "number");
}

#[test]
fn test_extract_middleware_multiple_properties() {
    let file = class_file(
        "AuthMiddleware",
        "use",
        vec![Stmt::Return(Some(opts_next(vec![
            kv("userId", string_lit("123")),
            kv("isAdmin", bool_lit(true)),
            kv(
                "permissions",
                Expr::Array(ArrayLit {
                    elems: Vec::new(),
                    text: "['read', 'write']".to_string(),
                }),
            ),
        ])))],
        true,
    );

    let info = extract_middleware(&file, "AuthMiddleware").expect("middleware should be found");
    assert_eq!(info.context_properties.len(), 3);
    let names: Vec<&str> = info
        .context_properties
        .iter()
        .map(|p| p.name.as_str())
        .collect();
    assert!(names.contains(&"userId"));
    assert!(names.contains(&"isAdmin"));
    assert!(names.contains(&"permissions"));
}

#[test]
fn test_extract_middleware_no_context() {
    let bare_next = Expr::Call(CallExpr {
        callee: Callee::Expr(Box::new(Expr::Member(MemberExpr {
            obj: Box::new(Expr::Ident("opts".to_string())),
            prop: MemberProp::Ident("next".to_string()),
            text: "opts.next".to_string(),
        }))),
        args: Vec::new(),
        text: "opts.next()".to_string(),
    });
    let file = class_file(
        "LoggingMiddleware",
        "use",
        vec![Stmt::Return(Some(bare_next))],
        true,
    );

    let info = extract_middleware(&file, "LoggingMiddleware").expect("middleware should be found");
    assert!(info.context_properties.is_empty());
}

#[test]
fn test_extract_middleware_class_not_found() {
    let file = class_file(
        "SomeOtherClass",
        "use",
        vec![Stmt::Return(Some(opts_next(vec![kv(
            "test",
            bool_lit(true),
        )])))],
        true,
    );
    assert!(extract_middleware(&file, "ProtectedMiddleware").is_none());
}

#[test]
fn test_extract_middleware_no_use_method() {
    let file = class_file("ProtectedMiddleware", "handle", Vec::new(), true);
    assert!(extract_middleware(&file, "ProtectedMiddleware").is_none());
}
