use nestjs_trpc::ast::{
    ArrayLit, CallExpr, Callee, Expr, ExprOrSpread, ImportDecl, ImportNamedSpecifier,
    ImportSpecifier, KeyValueProp, MemberExpr, MemberProp, Module, ModuleItem, ObjectLit, Prop,
    PropName, PropOrSpread, VarDecl, VarDeclarator,
};
use nestjs_trpc::flatten::{flatten_zod_schema, ZodFlattener};
use nestjs_trpc::project::{ParsedFile, Project};

fn ident(name: &str) -> Expr {
    Expr::Ident(name.to_string())
}

fn member(obj: Expr, prop: &str, text: &str) -> Expr {
    Expr::Member(MemberExpr {
        obj: Box::new(obj),
        prop: MemberProp::Ident(prop.to_string()),
        text: text.to_string(),
    })
}

fn call(callee: Expr, args: Vec<Expr>, text: &str) -> Expr {
    Expr::Call(CallExpr {
        callee: Callee::Expr(Box::new(callee)),
        args: args
            .into_iter()
            .map(|expr| ExprOrSpread {
                spread: false,
                expr,
            })
            .collect(),
        text: text.to_string(),
    })
}

fn zod_chain(text: &str) -> Expr {
    call(member(ident("z"), "chain", "z.chain"), Vec::new(), text)
}

fn kv(key: &str, value: Expr, text: &str) -> PropOrSpread {
    PropOrSpread::Prop(Prop::KeyValue(Box::new(KeyValueProp {
        key: PropName::Ident(key.to_string()),
        value,
        text: text.to_string(),
    })))
}

fn object(props: Vec<PropOrSpread>, text: &str) -> Expr {
    Expr::Object(ObjectLit {
        props,
        text: text.to_string(),
    })
}

fn var_binding(name: &str, init: Expr, exported: bool) -> ModuleItem {
    ModuleItem::Var {
        decl: VarDecl {
            decls: vec![VarDeclarator {
                name: Some(name.to_string()),
                init: Some(init),
            }],
        },
        exported,
    }
}

fn main_file(items: Vec<ModuleItem>) -> Project {
    Project {
        files: vec![ParsedFile {
            file_path: "/p/main.ts".to_string(),
            module: Module { body: items },
        }],
    }
}

#[test]
fn test_flattener_creation() {
    let flattener = ZodFlattener::new("/tmp");
    assert_eq!(flattener.max_depth, 20);
}

#[test]
fn test_flattener_with_max_depth() {
    let flattener = ZodFlattener::new("/tmp").with_max_depth(10);
    assert_eq!(flattener.max_depth, 10);
}

#[test]
fn test_flatten_simple_inline_schema() {
    let project = main_file(vec![var_binding(
        "schema",
        zod_chain("z.object({ name: z.string() })"),
        false,
    )]);
    let file = &project.files[0];

    let expr = call(
        member(ident("z"), "object", "z.object"),
        vec![object(
            vec![kv("name", zod_chain("z.string()"), "name: z.string()")],
            "{ name: z.string() }",
        )],
        "z.object({ name: z.string() })",
    );

    let result = flatten_zod_schema(
        &project,
        &expr,
        "z.object({ name: z.string() })",
        file,
        "/p",
        Vec::new(),
    )
    .expect("Failed to flatten");

    assert!(result.contains("z.object"));
    assert!(result.contains("name"));
    assert!(result.contains("z.string"));
}

#[test]
fn test_flatten_variable_reference() {
    let project = main_file(vec![
        var_binding("nameSchema", zod_chain("z.string()"), false),
        var_binding(
            "userSchema",
            object(
                vec![kv("name", ident("nameSchema"), "name: nameSchema")],
                "{ name: nameSchema }",
            ),
            false,
        ),
    ]);
    let file = &project.files[0];

    let result = flatten_zod_schema(
        &project,
        &ident("nameSchema"),
        "nameSchema",
        file,
        "/p",
        Vec::new(),
    )
    .expect("Failed to flatten");

    assert!(result.contains("z.string()"));
}

#[test]
fn test_flatten_nested_variable_reference() {
    let project = main_file(vec![
        var_binding("nameSchema", zod_chain("z.string()"), false),
        var_binding(
            "userSchema",
            call(
                member(ident("z"), "object", "z.object"),
                vec![object(
                    vec![kv("name", ident("nameSchema"), "name: nameSchema")],
                    "{ name: nameSchema }",
                )],
                "z.object({ name: nameSchema })",
            ),
            false,
        ),
    ]);
    let file = &project.files[0];

    let result = flatten_zod_schema(
        &project,
        &ident("userSchema"),
        "userSchema",
        file,
        "/p",
        Vec::new(),
    )
    .expect("Failed to flatten");

    assert!(result.contains("z.object"));
    assert!(result.contains("z.string()"));
    assert!(!result.contains("nameSchema"));
}

#[test]
fn test_flatten_imported_schema() {
    let project = Project {
        files: vec![
            ParsedFile {
                file_path: "/p/main.ts".to_string(),
                module: Module {
                    body: vec![ModuleItem::Import(ImportDecl {
                        src: "./schemas".to_string(),
                        specifiers: vec![ImportSpecifier::Named(ImportNamedSpecifier {
                            local: "emailSchema".to_string(),
                            imported: None,
                        })],
                    })],
                },
            },
            ParsedFile {
                file_path: "/p/schemas.ts".to_string(),
                module: Module {
                    body: vec![var_binding(
                        "emailSchema",
                        zod_chain("z.string().email()"),
                        true,
                    )],
                },
            },
        ],
    };
    let file = &project.files[0];

    let result = flatten_zod_schema(
        &project,
        &ident("emailSchema"),
        "emailSchema",
        file,
        "/p",
        Vec::new(),
    )
    .expect("Failed to flatten");

    assert!(result.contains("z.string().email()"));
}

#[test]
fn test_flatten_array_literal() {
    let project = main_file(vec![
        var_binding("strSchema", zod_chain("z.string()"), false),
        var_binding("numSchema", zod_chain("z.number()"), false),
    ]);
    let file = &project.files[0];

    let union_expr = call(
        member(ident("z"), "union", "z.union"),
        vec![Expr::Array(ArrayLit {
            elems: vec![
                Some(ExprOrSpread {
                    spread: false,
                    expr: ident("strSchema"),
                }),
                Some(ExprOrSpread {
                    spread: false,
                    expr: ident("numSchema"),
                }),
            ],
            text: "[strSchema, numSchema]".to_string(),
        })],
        "z.union([strSchema, numSchema])",
    );

    let result = flatten_zod_schema(
        &project,
        &union_expr,
        "z.union([strSchema, numSchema])",
        file,
        "/p",
        Vec::new(),
    )
    .expect("Failed to flatten");

    assert!(result.contains("z.union"));
    assert!(result.contains("z.string()"));
    assert!(result.contains("z.number()"));
}

#[test]
fn test_flatten_method_chain() {
    let project = main_file(vec![var_binding(
        "baseSchema",
        zod_chain("z.string()"),
        false,
    )]);
    let file = &project.files[0];

    let chained = call(
        member(ident("baseSchema"), "optional", "baseSchema.optional"),
        Vec::new(),
        "baseSchema.optional()",
    );

    let result = flatten_zod_schema(
        &project,
        &chained,
        "baseSchema.optional()",
        file,
        "/p",
        Vec::new(),
    )
    .expect("Failed to flatten");

    assert!(result.contains("z.string()"));
    assert!(result.contains(".optional()"));
}

#[test]
fn test_flatten_preserves_z_prefix() {
    let project = main_file(Vec::new());
    let file = &project.files[0];

    let expr = call(
        member(
            zod_chain("z.string().min(1)"),
            "max",
            "z.string().min(1).max",
        ),
        Vec::new(),
        "z.string().min(1).max(100)",
    );

    let result = flatten_zod_schema(
        &project,
        &expr,
        "z.string().min(1).max(100)",
        file,
        "/p",
        Vec::new(),
    )
    .expect("Failed to flatten");

    assert!(result.starts_with("z."));
}

#[test]
fn test_flatten_handles_circular_reference() {
    let project = main_file(vec![var_binding("schema", zod_chain("z.string()"), false)]);
    let file = &project.files[0];

    let result =
        flatten_zod_schema(&project, &ident("schema"), "schema", file, "/p", Vec::new())
            .expect("Failed to flatten");

    assert!(result.contains("z.string()"));
}

#[test]
fn test_flatten_unknown_identifier() {
    let project = main_file(Vec::new());
    let file = &project.files[0];

    let result = flatten_zod_schema(
        &project,
        &ident("unknownSchema"),
        "unknownSchema",
        file,
        "/p",
        Vec::new(),
    )
    .expect("Failed to flatten");

    assert_eq!(result, "unknownSchema");
}

#[test]
fn test_flatten_exported_schema() {
    let project = main_file(vec![var_binding(
        "idSchema",
        zod_chain("z.string().uuid()"),
        true,
    )]);
    let file = &project.files[0];

    let result = flatten_zod_schema(
        &project,
        &ident("idSchema"),
        "idSchema",
        file,
        "/p",
        Vec::new(),
    )
    .expect("Failed to flatten");

    assert!(result.contains("z.string().uuid()"));
}

#[test]
fn test_convenience_function() {
    let project = main_file(vec![var_binding("schema", zod_chain("z.string()"), false)]);
    let file = &project.files[0];

    let result =
        flatten_zod_schema(&project, &ident("schema"), "schema", file, "/p", Vec::new())
            .expect("Failed to flatten");

    assert!(result.contains("z.string()"));
}

#[test]
fn test_flatten_with_transform() {
    let project = main_file(vec![var_binding(
        "dateSchema",
        zod_chain("z.string().transform((val) => new Date(val))"),
        false,
    )]);
    let file = &project.files[0];

    let result = flatten_zod_schema(
        &project,
        &ident("dateSchema"),
        "dateSchema",
        file,
        "/p",
        Vec::new(),
    )
    .expect("Failed to flatten");

    assert!(result.contains("z.string()"));
    assert!(result.contains("transform"));
}

#[test]
fn test_flatten_enum_schema() {
    let project = main_file(vec![var_binding(
        "statusSchema",
        zod_chain("z.enum(['active', 'inactive', 'pending'])"),
        false,
    )]);
    let file = &project.files[0];

    let result = flatten_zod_schema(
        &project,
        &ident("statusSchema"),
        "statusSchema",
        file,
        "/p",
        Vec::new(),
    )
    .expect("Failed to flatten");

    assert!(result.contains("z.enum"));
    assert!(result.contains("active"));
    assert!(result.contains("inactive"));
}
