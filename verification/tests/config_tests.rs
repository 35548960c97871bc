use nestjs_trpc::ast::{
    Expr, KeyValueProp, Lit, Module, ModuleItem, ObjectLit, Prop, PropName, PropOrSpread,
    VarDecl, VarDeclarator,
};
use nestjs_trpc::config::Config;

fn kv(key: &str, value: Expr) -> PropOrSpread {
    PropOrSpread::Prop(Prop::KeyValue(Box::new(KeyValueProp {
        key: PropName::Ident(key.to_string()),
        value,
        text: String::new(),
    })))
}

fn string_lit(value: &str) -> Expr {
    Expr::Lit(Lit::Str(value.to_string()), format!("'{value}'"))
}

fn bool_lit(value: bool) -> Expr {
    Expr::Lit(Lit::Bool(value), format!("{value}"))
}

fn object(props: Vec<PropOrSpread>) -> Expr {
    Expr::Object(ObjectLit {
        props,
        text: String::new(),
    })
}

fn default_export(e: Expr) -> Module {
    Module {
        body: vec![ModuleItem::ExportDefaultExpr(e)],
    }
}

#[test]
fn test_parse_full_config() {
    let module = default_export(object(vec![
        kv(
            "generation",
            object(vec![
                kv("outputPath", string_lit("./dist/generated")),
                kv("routerPattern", string_lit("lib/**/*.router.ts")),
                kv("rootModule", string_lit("lib/app.module.ts")),
            ]),
        ),
        kv("parsing", object(vec![kv("decorators", bool_lit(true))])),
    ]));

    let config = Config::parse(&module, "test.config.ts").expect("Failed to parse config");

    assert_eq!(config.generation.output_path, "./dist/generated");
    assert_eq!(config.generation.router_pattern, "lib/**/*.router.ts");
    assert_eq!(config.generation.root_module, "lib/app.module.ts");
    assert!(config.parsing.decorators);
}

#[test]
fn test_parse_minimal_config() {
    let module = default_export(object(vec![kv(
        "generation",
        object(vec![kv("outputPath", string_lit("./output"))]),
    )]));

    let config = Config::parse(&module, "test.config.ts").expect("Failed to parse config");

    assert_eq!(config.generation.output_path, "./output");
    assert_eq!(config.generation.router_pattern, "src/**/*.router.ts");
    assert!(config.parsing.decorators);
}

#[test]
fn test_parse_empty_config() {
    let module = default_export(object(vec![]));

    let config = Config::parse(&module, "test.config.ts").expect("Failed to parse config");

    assert_eq!(config.generation.output_path, "./src/@generated");
    assert_eq!(config.generation.router_pattern, "src/**/*.router.ts");
    assert_eq!(config.generation.root_module, "src/app.module.ts");
    assert!(config.parsing.decorators);
}

#[test]
fn test_parse_decorators_false() {
    let module = default_export(object(vec![kv(
        "parsing",
        object(vec![kv("decorators", bool_lit(false))]),
    )]));

    let config = Config::parse(&module, "test.config.ts").expect("Failed to parse config");

    assert!(!config.parsing.decorators);
}

#[test]
fn test_parse_no_default_export() {
    let module = Module {
        body: vec![ModuleItem::Var {
            decl: VarDecl {
                decls: vec![VarDeclarator {
                    name: Some("x".to_string()),
                    init: Some(Expr::Lit(Lit::Num("1".to_string()), "1".to_string())),
                }],
            },
            exported: true,
        }],
    };

    let result = Config::parse(&module, "test.config.ts");
    assert!(result.is_err());
}

#[test]
fn test_parse_unknown_field() {
    let module = default_export(object(vec![kv("unknownField", bool_lit(true))]));

    let result = Config::parse(&module, "test.config.ts");
    assert!(result.is_err());
    let message = result.unwrap_err().message();
    assert!(message.contains("Unknown field"));
}

#[test]
fn test_default_config() {
    let config = Config::new_default();

    assert_eq!(config.generation.output_path, "./src/@generated");
    assert_eq!(config.generation.router_pattern, "src/**/*.router.ts");
    assert_eq!(config.generation.root_module, "src/app.module.ts");
    assert!(config.parsing.decorators);
}

#[test]
fn parse_define_config_call_yields_its_object() {
    let inner = object(vec![kv(
        "generation",
        object(vec![kv("outputPath", string_lit("./out"))]),
    )]);
    let call = Expr::Call(nestjs_trpc::ast::CallExpr {
        callee: nestjs_trpc::ast::Callee::Expr(Box::new(Expr::Ident(
            "defineConfig".to_string(),
        ))),
        args: vec![nestjs_trpc::ast::ExprOrSpread {
            spread: false,
            expr: inner,
        }],
        text: String::new(),
    });
    let module = default_export(call);

    let config = Config::parse(&module, "test.config.ts").expect("Failed to parse config");
    assert_eq!(config.generation.output_path, "./out");
}

#[test]
fn resolve_paths_joins_relative_paths() {
    let config = Config::new_default().resolve_paths("/project");
    assert_eq!(config.generation.output_path, "/project/src/@generated");
    assert_eq!(config.generation.root_module, "/project/src/app.module.ts");
}

#[test]
fn with_output_path_replaces_only_that_field() {
    let config = Config::new_default().with_output_path("/elsewhere".to_string());
    assert_eq!(config.generation.output_path, "/elsewhere");
    assert_eq!(config.generation.router_pattern, "src/**/*.router.ts");
}
