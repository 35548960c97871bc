use nestjs_trpc::ast::{
    CallExpr, Callee, Expr, KeyValueProp, MemberExpr, MemberProp, Module, ModuleItem, ObjectLit,
    Prop, PropName, PropOrSpread, VarDecl, VarDeclarator,
};
use nestjs_trpc::flatten::flatten_zod_schema;
use nestjs_trpc::project::{ParsedFile, Project};

fn ident(name: &str) -> Expr {
    Expr::Ident(name.to_string())
}

/// A call like `z.string()`: a member callee whose base is `z`, carrying
/// the whole call's source text.
fn zod_call(text: &str) -> Expr {
    Expr::Call(CallExpr {
        callee: Callee::Expr(Box::new(Expr::Member(MemberExpr {
            obj: Box::new(ident("z")),
            prop: MemberProp::Ident("call".to_string()),
            text: "z.call".to_string(),
        }))),
        args: Vec::new(),
        text: text.to_string(),
    })
}

fn kv(key: &str, value: Expr, text: &str) -> PropOrSpread {
    PropOrSpread::Prop(Prop::KeyValue(Box::new(KeyValueProp {
        key: PropName::Ident(key.to_string()),
        value,
        text: text.to_string(),
    })))
}

fn var_binding(name: &str, init: Expr) -> ModuleItem {
    ModuleItem::Var {
        decl: VarDecl {
            decls: vec![VarDeclarator {
                name: Some(name.to_string()),
                init: Some(init),
            }],
        },
        exported: false,
    }
}

fn single_file_project(items: Vec<ModuleItem>) -> Project {
    Project {
        files: vec![ParsedFile {
            file_path: "/p/main.ts".to_string(),
            module: Module { body: items },
        }],
    }
}

/// Flattening an already-fully-flattened schema expression returns it
/// unchanged.
#[test]
fn flatten_is_idempotent_on_flattened_schema() {
    let project = single_file_project(Vec::new());
    let file = &project.files[0];

    let schema_text = "z.object({ name: z.string() })";
    let schema_expr = Expr::Call(CallExpr {
        callee: Callee::Expr(Box::new(Expr::Member(MemberExpr {
            obj: Box::new(ident("z")),
            prop: MemberProp::Ident("object".to_string()),
            text: "z.object".to_string(),
        }))),
        args: vec![nestjs_trpc::ast::ExprOrSpread {
            spread: false,
            expr: Expr::Object(ObjectLit {
                props: vec![kv("name", zod_call("z.string()"), "name: z.string()")],
                text: "{ name: z.string() }".to_string(),
            }),
        }],
        text: schema_text.to_string(),
    });

    let first = flatten_zod_schema(&project, &schema_expr, schema_text, file, "/p", Vec::new())
        .expect("Failed to flatten");
    assert_eq!(first, schema_text);

    let second = flatten_zod_schema(&project, &schema_expr, &first, file, "/p", Vec::new())
        .expect("Failed to flatten");
    assert_eq!(second, first);
}

/// A resolvable local reference is replaced by its initializer, leaving no
/// free identifier besides the validator namespace.
#[test]
fn flatten_resolves_local_reference_to_self_contained_text() {
    let project = single_file_project(vec![var_binding("nameSchema", zod_call("z.string()"))]);
    let file = &project.files[0];

    let result = flatten_zod_schema(
        &project,
        &ident("nameSchema"),
        "nameSchema",
        file,
        "/p",
        Vec::new(),
    )
    .expect("Failed to flatten");

    assert_eq!(result, "z.string()");
    assert!(!result.contains("nameSchema"));
}

/// A chain of local references resolves through every link.
#[test]
fn flatten_resolves_nested_references() {
    let project = single_file_project(vec![
        var_binding("nameSchema", zod_call("z.string()")),
        var_binding(
            "userSchema",
            Expr::Call(CallExpr {
                callee: Callee::Expr(Box::new(Expr::Member(MemberExpr {
                    obj: Box::new(ident("z")),
                    prop: MemberProp::Ident("object".to_string()),
                    text: "z.object".to_string(),
                }))),
                args: vec![nestjs_trpc::ast::ExprOrSpread {
                    spread: false,
                    expr: Expr::Object(ObjectLit {
                        props: vec![kv("name", ident("nameSchema"), "name: nameSchema")],
                        text: "{ name: nameSchema }".to_string(),
                    }),
                }],
                text: "z.object({ name: nameSchema })".to_string(),
            }),
        ),
    ]);
    let file = &project.files[0];

    let result = flatten_zod_schema(
        &project,
        &ident("userSchema"),
        "userSchema",
        file,
        "/p",
        Vec::new(),
    )
    .expect("Failed to flatten");

    assert!(result.contains("z.object"));
    assert!(result.contains("z.string()"));
    assert!(!result.contains("nameSchema"));
}

/// A variable whose initializer references itself terminates and keeps the
/// identifier unexpanded.
#[test]
fn flatten_handles_direct_self_reference() {
    let project = single_file_project(vec![var_binding("loop_schema", ident("loop_schema"))]);
    let file = &project.files[0];

    let result = flatten_zod_schema(
        &project,
        &ident("loop_schema"),
        "loop_schema",
        file,
        "/p",
        Vec::new(),
    )
    .expect("Failed to flatten");

    assert_eq!(result, "loop_schema");
}

/// Two variables referencing each other terminate and keep the inner
/// reference unexpanded instead of looping.
#[test]
fn flatten_handles_transitive_cycle() {
    let project = single_file_project(vec![
        var_binding("alpha", ident("beta")),
        var_binding("beta", ident("alpha")),
    ]);
    let file = &project.files[0];

    let result =
        flatten_zod_schema(&project, &ident("alpha"), "alpha", file, "/p", Vec::new())
            .expect("Failed to flatten");

    assert_eq!(result, "alpha");
}

/// An importable identifier is left in place for the generator to import.
#[test]
fn flatten_keeps_importable_identifier() {
    let project = single_file_project(vec![var_binding("userSchema", zod_call("z.string()"))]);
    let file = &project.files[0];

    let result = flatten_zod_schema(
        &project,
        &ident("userSchema"),
        "userSchema",
        file,
        "/p",
        vec!["userSchema".to_string()],
    )
    .expect("Failed to flatten");

    assert_eq!(result, "userSchema");
}

/// An unknown identifier is left as literal text.
#[test]
fn flatten_leaves_unknown_identifier() {
    let project = single_file_project(Vec::new());
    let file = &project.files[0];

    let result = flatten_zod_schema(
        &project,
        &ident("unknownSchema"),
        "unknownSchema",
        file,
        "/p",
        Vec::new(),
    )
    .expect("Failed to flatten");

    assert_eq!(result, "unknownSchema");
}

/// A reference defined in an imported file is flattened across the file
/// boundary.
#[test]
fn flatten_resolves_imported_reference() {
    let project = Project {
        files: vec![
            ParsedFile {
                file_path: "/p/main.ts".to_string(),
                module: Module {
                    body: vec![ModuleItem::Import(nestjs_trpc::ast::ImportDecl {
                        src: "./schemas".to_string(),
                        specifiers: vec![nestjs_trpc::ast::ImportSpecifier::Named(
                            nestjs_trpc::ast::ImportNamedSpecifier {
                                local: "emailSchema".to_string(),
                                imported: None,
                            },
                        )],
                    })],
                },
            },
            ParsedFile {
                file_path: "/p/schemas.ts".to_string(),
                module: Module {
                    body: vec![ModuleItem::Var {
                        decl: VarDecl {
                            decls: vec![VarDeclarator {
                                name: Some("emailSchema".to_string()),
                                init: Some(zod_call("z.string().email()")),
                            }],
                        },
                        exported: true,
                    }],
                },
            },
        ],
    };
    let file = &project.files[0];

    let result = flatten_zod_schema(
        &project,
        &ident("emailSchema"),
        "emailSchema",
        file,
        "/p",
        Vec::new(),
    )
    .expect("Failed to flatten");

    assert_eq!(result, "z.string().email()");
}
