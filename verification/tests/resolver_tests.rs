use nestjs_trpc::ast::{
    ExportAll, ExportNamedSpecifier, ExportSpecifier, Module, ModuleItem, NamedExport, VarDecl,
    VarDeclarator,
};
use nestjs_trpc::imports::declarations::find_declaration_in_file;
use nestjs_trpc::imports::resolver::ImportResolver;
use nestjs_trpc::imports::types::DeclarationType;
use nestjs_trpc::project::{ParsedFile, Project};

fn exported_var(name: &str) -> ModuleItem {
    ModuleItem::Var {
        decl: VarDecl {
            decls: vec![VarDeclarator {
                name: Some(name.to_string()),
                init: None,
            }],
        },
        exported: true,
    }
}

fn file(path: &str, body: Vec<ModuleItem>) -> ParsedFile {
    ParsedFile {
        file_path: path.to_string(),
        module: Module { body },
    }
}

fn star_export(src: &str) -> ModuleItem {
    ModuleItem::ExportAll(ExportAll {
        src: src.to_string(),
    })
}

fn named_reexport(orig: &str, exported: Option<&str>, src: &str) -> ModuleItem {
    ModuleItem::ExportNamed(NamedExport {
        src: Some(src.to_string()),
        specifiers: vec![ExportSpecifier::Named(ExportNamedSpecifier {
            orig: orig.to_string(),
            exported: exported.map(|s| s.to_string()),
        })],
    })
}

#[test]
fn resolves_declaration_in_file_directly() {
    let user = file("/p/schemas/user.ts", vec![exported_var("userSchema")]);
    let found = find_declaration_in_file(&user, "userSchema").unwrap();
    assert_eq!(found.name, "userSchema");
    assert_eq!(found.source_file, "/p/schemas/user.ts");
    assert_eq!(found.declaration_type, DeclarationType::Variable);
}

#[test]
fn resolves_class_interface_enum_function_and_alias_kinds() {
    let body = vec![
        ModuleItem::ClassDecl {
            name: "UserService".to_string(),
            class: nestjs_trpc::ast::Class {
                decorators: Vec::new(),
                body: Vec::new(),
            },
            exported: true,
        },
        ModuleItem::InterfaceDecl {
            name: "User".to_string(),
            exported: true,
        },
        ModuleItem::EnumDecl {
            name: "Status".to_string(),
            exported: true,
        },
        ModuleItem::FnDecl {
            name: "formatDate".to_string(),
            exported: true,
        },
        ModuleItem::TypeAliasDecl {
            name: "UserId".to_string(),
            exported: true,
        },
    ];
    let f = file("/p/types.ts", body);
    assert_eq!(
        find_declaration_in_file(&f, "UserService").unwrap().declaration_type,
        DeclarationType::Class
    );
    assert_eq!(
        find_declaration_in_file(&f, "User").unwrap().declaration_type,
        DeclarationType::Interface
    );
    assert_eq!(
        find_declaration_in_file(&f, "Status").unwrap().declaration_type,
        DeclarationType::Enum
    );
    assert_eq!(
        find_declaration_in_file(&f, "formatDate").unwrap().declaration_type,
        DeclarationType::Function
    );
    assert_eq!(
        find_declaration_in_file(&f, "UserId").unwrap().declaration_type,
        DeclarationType::TypeAlias
    );
    assert!(find_declaration_in_file(&f, "missing").is_none());
}

/// Resolving a name through a chain of index files — a named re-export,
/// then a star re-export, then a nested star re-export — yields the same
/// defining file as resolving it directly against the innermost module.
#[test]
fn barrel_chain_resolves_to_innermost_module() {
    let project = Project {
        files: vec![
            file("/p/schemas/user/model.ts", vec![exported_var("userSchema")]),
            file("/p/schemas/user/index.ts", vec![star_export("./model")]),
            file("/p/schemas/index.ts", vec![star_export("./user")]),
            file(
                "/p/index.ts",
                vec![named_reexport("userSchema", None, "./schemas")],
            ),
        ],
    };
    let resolver = ImportResolver::new();

    let through_chain = resolver
        .resolve_import(&project, "/p/index.ts", "userSchema", "/p", 0)
        .unwrap();

    let direct = find_declaration_in_file(&project.files[0], "userSchema").unwrap();

    assert_eq!(through_chain.source_file, direct.source_file);
    assert_eq!(through_chain.source_file, "/p/schemas/user/model.ts");
    assert_eq!(through_chain.declaration_type, DeclarationType::Variable);
}

#[test]
fn aliased_reexport_resolves_under_original_name() {
    let project = Project {
        files: vec![
            file("/p/schemas/user.ts", vec![exported_var("userSchema")]),
            file(
                "/p/schemas/index.ts",
                vec![named_reexport("userSchema", Some("UserSchema"), "./user")],
            ),
        ],
    };
    let resolver = ImportResolver::new();

    let resolved = resolver
        .resolve_import(&project, "/p/schemas/index.ts", "UserSchema", "/p", 0)
        .unwrap();

    assert_eq!(resolved.name, "userSchema");
    assert_eq!(resolved.source_file, "/p/schemas/user.ts");
}

/// A chain of re-export indirections deeper than the configured maximum
/// resolves to an error rather than hanging.
#[test]
fn depth_bound_turns_deep_chain_into_error() {
    let project = Project {
        files: vec![file("/p/index.ts", vec![star_export("./index.ts")])],
    };
    let resolver = ImportResolver::new();

    let result = resolver.resolve_import(&project, "/p/index.ts", "ghost", "/p", 0);
    assert!(result.is_err());

    let shallow = ImportResolver::new().with_max_depth(2);
    let result = shallow.resolve_import(&project, "/p/index.ts", "ghost", "/p", 0);
    assert!(result.is_err());
}

#[test]
fn depth_error_names_the_bound() {
    let resolver = ImportResolver::new().with_max_depth(10);
    let project = Project { files: Vec::new() };
    let result = resolver.resolve_import(&project, "/p/a.ts", "name", "/p", 10);
    match result {
        Err(nestjs_trpc::error::ImportError::CircularImport { cycle }) => {
            assert_eq!(
                cycle,
                "Maximum resolution depth (10) exceeded while resolving 'name'"
            );
        }
        other => panic!("expected the depth error, got {other:?}"),
    }
}

#[test]
fn build_imports_map_resolves_named_imports() {
    let project = Project {
        files: vec![
            file(
                "/p/main.ts",
                vec![ModuleItem::Import(nestjs_trpc::ast::ImportDecl {
                    src: "./schema".to_string(),
                    specifiers: vec![nestjs_trpc::ast::ImportSpecifier::Named(
                        nestjs_trpc::ast::ImportNamedSpecifier {
                            local: "UserSchema".to_string(),
                            imported: Some("userSchema".to_string()),
                        },
                    )],
                })],
            ),
            file("/p/schema.ts", vec![exported_var("userSchema")]),
        ],
    };
    let resolver = ImportResolver::new();
    let map = resolver.build_imports_map(&project, &project.files[0], "/p");

    let resolved = map.get("UserSchema").expect("binding should resolve");
    assert_eq!(resolved.name, "userSchema");
    assert_eq!(resolved.source_file, "/p/schema.ts");
    assert!(map.get("userSchema").is_none());
}

#[test]
fn detect_circular_imports_records_cycle() {
    let project = Project {
        files: vec![
            file(
                "/p/a.ts",
                vec![ModuleItem::Import(nestjs_trpc::ast::ImportDecl {
                    src: "./b.ts".to_string(),
                    specifiers: Vec::new(),
                })],
            ),
            file(
                "/p/b.ts",
                vec![ModuleItem::Import(nestjs_trpc::ast::ImportDecl {
                    src: "./a.ts".to_string(),
                    specifiers: Vec::new(),
                })],
            ),
        ],
    };
    let resolver = ImportResolver::new();
    let cycles = resolver.detect_circular_imports(&project, &project.files[0], "/p");
    assert_eq!(cycles.len(), 1);
    assert!(cycles[0].contains("/p/a.ts -> /p/b.ts -> /p/a.ts"));
}

#[test]
fn test_reexport_chain_past_depth_bound_errors() {
    // Eleven files: ten nested barrel index files, each re-exporting the
    // name from the next directory, and a terminal module that declares it.
    // The chain needs eleven resolution steps, one past the default bound
    // of ten, so resolution fails with the depth error instead of hanging.
    let mut files: Vec<ParsedFile> = Vec::new();
    let mut dir = String::from("/p/c0");
    for step in 1..=10 {
        let barrel_path = format!("{}/index.ts", dir);
        let next = format!("./c{}", step);
        files.push(file(&barrel_path, vec![named_reexport("needle", None, &next)]));
        dir = format!("{}/c{}", dir, step);
    }
    // The tenth barrel points at `./c10`, which resolves to this file.
    let terminal = format!("{}.ts", dir);
    files.push(file(&terminal, vec![exported_var("needle")]));
    let project = Project { files };

    let resolver = ImportResolver::new();
    let result = resolver.resolve_import(&project, "/p/c0/index.ts", "needle", "/p", 0);
    match result {
        Err(nestjs_trpc::error::ImportError::CircularImport { cycle }) => {
            assert_eq!(
                cycle,
                "Maximum resolution depth (10) exceeded while resolving 'needle'"
            );
        }
        other => panic!("expected the depth error, got {:?}", other),
    }
}

#[test]
fn test_reexport_chain_within_depth_bound_resolves() {
    // The same shape, but nine barrels: the terminal declaration is reached
    // at the ninth step, inside the bound, and resolution succeeds.
    let mut files: Vec<ParsedFile> = Vec::new();
    let mut dir = String::from("/p/c0");
    for step in 1..=9 {
        let barrel_path = format!("{}/index.ts", dir);
        let next = format!("./c{}", step);
        files.push(file(&barrel_path, vec![named_reexport("needle", None, &next)]));
        dir = format!("{}/c{}", dir, step);
    }
    let terminal = format!("{}.ts", dir);
    files.push(file(&terminal, vec![exported_var("needle")]));
    let project = Project { files };

    let resolver = ImportResolver::new();
    let result = resolver.resolve_import(&project, "/p/c0/index.ts", "needle", "/p", 0);
    let resolved = result.expect("the chain stays inside the bound");
    assert_eq!(resolved.name, "needle");
    assert_eq!(resolved.source_file, terminal);
    assert_eq!(resolved.declaration_type, DeclarationType::Variable);
}
