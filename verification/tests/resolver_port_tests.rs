use nestjs_trpc::ast::{
    Class, ExportAll, ExportNamedSpecifier, ExportSpecifier, ImportDecl, ImportNamedSpecifier,
    ImportSpecifier, Module, ModuleItem, NamedExport, VarDecl, VarDeclarator,
};
use nestjs_trpc::imports::resolver::{build_imports_map, ImportResolver, DEFAULT_MAX_IMPORT_DEPTH};
use nestjs_trpc::imports::types::DeclarationType;
use nestjs_trpc::project::{ParsedFile, Project};

fn file(path: &str, body: Vec<ModuleItem>) -> ParsedFile {
    ParsedFile {
        file_path: path.to_string(),
        module: Module { body },
    }
}

fn exported_var(name: &str) -> ModuleItem {
    ModuleItem::Var {
        decl: VarDecl {
            decls: vec![VarDeclarator {
                name: Some(name.to_string()),
                init: None,
            }],
        },
        exported: true,
    }
}

fn named_import(local: &str, imported: Option<&str>, src: &str) -> ModuleItem {
    ModuleItem::Import(ImportDecl {
        src: src.to_string(),
        specifiers: vec![ImportSpecifier::Named(ImportNamedSpecifier {
            local: local.to_string(),
            imported: imported.map(|s| s.to_string()),
        })],
    })
}

#[test]
fn test_resolver_creation() {
    let resolver = ImportResolver::new();
    assert_eq!(resolver.max_depth, DEFAULT_MAX_IMPORT_DEPTH);
}

#[test]
fn test_resolver_with_max_depth() {
    let resolver = ImportResolver::new().with_max_depth(5);
    assert_eq!(resolver.max_depth, 5);
}

#[test]
fn test_resolve_direct_import() {
    let project = Project {
        files: vec![
            file("/p/schema.ts", vec![exported_var("userSchema")]),
            file(
                "/p/main.ts",
                vec![named_import("userSchema", None, "./schema")],
            ),
        ],
    };
    let resolver = ImportResolver::new();
    let imports = resolver.build_imports_map(&project, &project.files[1], "/p");

    let info = imports.get("userSchema").expect("binding should resolve");
    assert_eq!(info.name, "userSchema");
    assert_eq!(info.declaration_type, DeclarationType::Variable);
    assert!(info.source_file.ends_with("schema.ts"));
}

#[test]
fn test_resolve_barrel_file_import() {
    let project = Project {
        files: vec![
            file("/p/schemas/user.ts", vec![exported_var("userSchema")]),
            file(
                "/p/schemas/index.ts",
                vec![ModuleItem::ExportNamed(NamedExport {
                    src: Some("./user".to_string()),
                    specifiers: vec![ExportSpecifier::Named(ExportNamedSpecifier {
                        orig: "userSchema".to_string(),
                        exported: None,
                    })],
                })],
            ),
            file(
                "/p/main.ts",
                vec![named_import("userSchema", None, "./schemas")],
            ),
        ],
    };
    let resolver = ImportResolver::new();
    let imports = resolver.build_imports_map(&project, &project.files[2], "/p");

    let info = imports.get("userSchema").expect("binding should resolve");
    assert!(info.source_file.ends_with("user.ts"));
}

#[test]
fn test_resolve_star_export() {
    let project = Project {
        files: vec![
            file("/p/schemas/user.ts", vec![exported_var("userSchema")]),
            file(
                "/p/schemas/index.ts",
                vec![ModuleItem::ExportAll(ExportAll {
                    src: "./user".to_string(),
                })],
            ),
            file(
                "/p/main.ts",
                vec![named_import("userSchema", None, "./schemas")],
            ),
        ],
    };
    let resolver = ImportResolver::new();
    let imports = resolver.build_imports_map(&project, &project.files[2], "/p");

    let info = imports.get("userSchema").expect("binding should resolve");
    assert!(info.source_file.ends_with("user.ts"));
}

#[test]
fn test_resolve_nested_barrel_files() {
    let project = Project {
        files: vec![
            file("/p/schemas/user/model.ts", vec![exported_var("userSchema")]),
            file(
                "/p/schemas/user/index.ts",
                vec![ModuleItem::ExportAll(ExportAll {
                    src: "./model".to_string(),
                })],
            ),
            file(
                "/p/schemas/index.ts",
                vec![ModuleItem::ExportAll(ExportAll {
                    src: "./user".to_string(),
                })],
            ),
            file(
                "/p/main.ts",
                vec![named_import("userSchema", None, "./schemas")],
            ),
        ],
    };
    let resolver = ImportResolver::new();
    let imports = resolver.build_imports_map(&project, &project.files[3], "/p");

    let info = imports.get("userSchema").expect("binding should resolve");
    assert!(info.source_file.ends_with("model.ts"));
}

#[test]
fn test_resolve_class_declaration() {
    let project = Project {
        files: vec![
            file(
                "/p/service.ts",
                vec![ModuleItem::ClassDecl {
                    name: "UserService".to_string(),
                    class: Class {
                        decorators: Vec::new(),
                        body: Vec::new(),
                    },
                    exported: true,
                }],
            ),
            file(
                "/p/main.ts",
                vec![named_import("UserService", None, "./service")],
            ),
        ],
    };
    let resolver = ImportResolver::new();
    let imports = resolver.build_imports_map(&project, &project.files[1], "/p");

    let info = imports.get("UserService").expect("binding should resolve");
    assert_eq!(info.declaration_type, DeclarationType::Class);
}

#[test]
fn test_resolve_interface_declaration() {
    let project = Project {
        files: vec![
            file(
                "/p/types.ts",
                vec![ModuleItem::InterfaceDecl {
                    name: "User".to_string(),
                    exported: true,
                }],
            ),
            file("/p/main.ts", vec![named_import("User", None, "./types")]),
        ],
    };
    let resolver = ImportResolver::new();
    let imports = resolver.build_imports_map(&project, &project.files[1], "/p");

    let info = imports.get("User").expect("binding should resolve");
    assert_eq!(info.declaration_type, DeclarationType::Interface);
}

#[test]
fn test_resolve_enum_declaration() {
    let project = Project {
        files: vec![
            file(
                "/p/enums.ts",
                vec![ModuleItem::EnumDecl {
                    name: "Status".to_string(),
                    exported: true,
                }],
            ),
            file("/p/main.ts", vec![named_import("Status", None, "./enums")]),
        ],
    };
    let resolver = ImportResolver::new();
    let imports = resolver.build_imports_map(&project, &project.files[1], "/p");

    let info = imports.get("Status").expect("binding should resolve");
    assert_eq!(info.declaration_type, DeclarationType::Enum);
}

#[test]
fn test_resolve_function_declaration() {
    let project = Project {
        files: vec![
            file(
                "/p/utils.ts",
                vec![ModuleItem::FnDecl {
                    name: "formatDate".to_string(),
                    exported: true,
                }],
            ),
            file(
                "/p/main.ts",
                vec![named_import("formatDate", None, "./utils")],
            ),
        ],
    };
    let resolver = ImportResolver::new();
    let imports = resolver.build_imports_map(&project, &project.files[1], "/p");

    let info = imports.get("formatDate").expect("binding should resolve");
    assert_eq!(info.declaration_type, DeclarationType::Function);
}

#[test]
fn test_resolve_type_alias() {
    let project = Project {
        files: vec![
            file(
                "/p/types.ts",
                vec![ModuleItem::TypeAliasDecl {
                    name: "UserId".to_string(),
                    exported: true,
                }],
            ),
            file("/p/main.ts", vec![named_import("UserId", None, "./types")]),
        ],
    };
    let resolver = ImportResolver::new();
    let imports = resolver.build_imports_map(&project, &project.files[1], "/p");

    let info = imports.get("UserId").expect("binding should resolve");
    assert_eq!(info.declaration_type, DeclarationType::TypeAlias);
}

#[test]
fn test_skip_external_imports() {
    let project = Project {
        files: vec![file(
            "/p/main.ts",
            vec![
                named_import("z", None, "zod"),
                named_import("Injectable", None, "@nestjs/common"),
            ],
        )],
    };
    let resolver = ImportResolver::new();
    let imports = resolver.build_imports_map(&project, &project.files[0], "/p");

    assert!(imports.get("z").is_none());
    assert!(imports.get("Injectable").is_none());
}

#[test]
fn test_aliased_import() {
    let project = Project {
        files: vec![
            file("/p/schema.ts", vec![exported_var("userSchema")]),
            file(
                "/p/main.ts",
                vec![named_import("UserSchema", Some("userSchema"), "./schema")],
            ),
        ],
    };
    let resolver = ImportResolver::new();
    let imports = resolver.build_imports_map(&project, &project.files[1], "/p");

    assert!(imports.get("UserSchema").is_some());
    assert!(imports.get("userSchema").is_none());
}

#[test]
fn test_unresolved_import() {
    let project = Project {
        files: vec![file(
            "/p/main.ts",
            vec![named_import("something", None, "./nonexistent")],
        )],
    };
    let resolver = ImportResolver::new();
    let imports = resolver.build_imports_map(&project, &project.files[0], "/p");

    assert!(imports.get("something").is_none());
}

#[test]
fn test_max_depth_exceeded() {
    let resolver = ImportResolver::new().with_max_depth(2);
    assert_eq!(resolver.max_depth, 2);
}

#[test]
fn test_build_imports_map_convenience() {
    let project = Project {
        files: vec![
            file("/p/schema.ts", vec![exported_var("userSchema")]),
            file(
                "/p/main.ts",
                vec![named_import("userSchema", None, "./schema")],
            ),
        ],
    };
    let imports = build_imports_map(&project, &project.files[1], "/p");

    assert!(imports.get("userSchema").is_some());
}

#[test]
fn test_multiple_imports_from_same_file() {
    let project = Project {
        files: vec![
            file(
                "/p/schemas.ts",
                vec![exported_var("userSchema"), exported_var("postSchema")],
            ),
            file(
                "/p/main.ts",
                vec![ModuleItem::Import(ImportDecl {
                    src: "./schemas".to_string(),
                    specifiers: vec![
                        ImportSpecifier::Named(ImportNamedSpecifier {
                            local: "userSchema".to_string(),
                            imported: None,
                        }),
                        ImportSpecifier::Named(ImportNamedSpecifier {
                            local: "postSchema".to_string(),
                            imported: None,
                        }),
                    ],
                })],
            ),
        ],
    };
    let resolver = ImportResolver::new();
    let imports = resolver.build_imports_map(&project, &project.files[1], "/p");

    assert!(imports.get("userSchema").is_some());
    assert!(imports.get("postSchema").is_some());
}

#[test]
fn test_mixed_barrel_and_direct_exports() {
    let project = Project {
        files: vec![
            file("/p/schemas/user.ts", vec![exported_var("userSchema")]),
            file(
                "/p/schemas/index.ts",
                vec![
                    ModuleItem::ExportNamed(NamedExport {
                        src: Some("./user".to_string()),
                        specifiers: vec![ExportSpecifier::Named(ExportNamedSpecifier {
                            orig: "userSchema".to_string(),
                            exported: None,
                        })],
                    }),
                    exported_var("config"),
                ],
            ),
            file(
                "/p/main.ts",
                vec![ModuleItem::Import(ImportDecl {
                    src: "./schemas".to_string(),
                    specifiers: vec![
                        ImportSpecifier::Named(ImportNamedSpecifier {
                            local: "userSchema".to_string(),
                            imported: None,
                        }),
                        ImportSpecifier::Named(ImportNamedSpecifier {
                            local: "config".to_string(),
                            imported: None,
                        }),
                    ],
                })],
            ),
        ],
    };
    let resolver = ImportResolver::new();
    let imports = resolver.build_imports_map(&project, &project.files[2], "/p");

    assert!(imports
        .get("userSchema")
        .expect("binding should resolve")
        .source_file
        .ends_with("user.ts"));
    assert!(imports
        .get("config")
        .expect("binding should resolve")
        .source_file
        .ends_with("index.ts"));
}
