use nestjs_trpc::generator::StaticGenerator;
use nestjs_trpc::server::generate_server_file;
use nestjs_trpc::{ProcedureMetadata, ProcedureType, RouterMetadata};

fn procedure(
    name: &str,
    kind: ProcedureType,
    input: Option<&str>,
    input_ref: Option<&str>,
) -> ProcedureMetadata {
    ProcedureMetadata {
        name: name.to_string(),
        procedure_type: kind,
        input_schema: input.map(|s| s.to_string()),
        output_schema: None,
        input_schema_ref: input_ref.map(|s| s.to_string()),
        output_schema_ref: None,
        schema_identifiers: input_ref.map(|s| vec![s.to_string()]).unwrap_or_default(),
    }
}

fn router(name: &str, alias: Option<&str>, procedures: Vec<ProcedureMetadata>) -> RouterMetadata {
    RouterMetadata {
        name: name.to_string(),
        alias: alias.map(|s| s.to_string()),
        file_path: "/p/src/user.router.ts".to_string(),
        procedures,
    }
}

/// Calling the generator twice with identical inputs produces byte-identical
/// output text.
#[test]
fn generate_is_deterministic() {
    let generator = StaticGenerator::new();
    let routers = vec![router(
        "UserRouter",
        Some("users"),
        vec![procedure(
            "getUser",
            ProcedureType::Query,
            Some("userSchema"),
            Some("userSchema"),
        )],
    )];
    let locations = vec![(
        "userSchema".to_string(),
        "/p/src/schemas/user.ts".to_string(),
    )];

    let first = generate_server_file(&generator, &routers, &locations, "/p/src/@generated/server.ts");
    let second =
        generate_server_file(&generator, &routers, &locations, "/p/src/@generated/server.ts");

    assert_eq!(first, second);
    assert_eq!(first.as_bytes(), second.as_bytes());
}

/// A procedure whose schema is a bare importable reference yields an
/// `input()` call on the identifier plus a matching import line.
#[test]
fn bare_reference_schema_is_imported() {
    let generator = StaticGenerator::new();
    let routers = vec![router(
        "UserRouter",
        None,
        vec![procedure(
            "getUser",
            ProcedureType::Query,
            Some("userSchema"),
            Some("userSchema"),
        )],
    )];
    let locations = vec![(
        "userSchema".to_string(),
        "/p/src/schemas/user.ts".to_string(),
    )];

    let output =
        generate_server_file(&generator, &routers, &locations, "/p/src/@generated/server.ts");

    assert!(output.contains("import { userSchema } from \"../schemas/user\";"));
    assert!(output.contains(".input(userSchema)"));
}

/// A procedure whose schema is written inline yields the literal expression
/// embedded verbatim and no schema import.
#[test]
fn inline_schema_is_embedded_without_import() {
    let generator = StaticGenerator::new();
    let routers = vec![router(
        "UserRouter",
        None,
        vec![procedure(
            "getUser",
            ProcedureType::Query,
            Some("z.object({ id: z.string() })"),
            None,
        )],
    )];
    let locations: Vec<(String, String)> = Vec::new();

    let output =
        generate_server_file(&generator, &routers, &locations, "/p/src/@generated/server.ts");

    assert!(output.contains(".input(z.object({ id: z.string() }))"));
    assert!(!output.contains("from \"../"));
}

/// A router with no alias appears under the lower-camel form of its class
/// name; an aliased router appears under its alias.
#[test]
fn alias_falls_back_to_derived_name() {
    let generator = StaticGenerator::new();
    let plain = vec![router("UserRouter", None, Vec::new())];
    let output =
        generate_server_file(&generator, &plain, &Vec::new(), "/p/src/@generated/server.ts");
    assert!(output.contains("  userRouter: userRouter,\n"));

    let aliased = vec![router("UserRouter", Some("users"), Vec::new())];
    let output =
        generate_server_file(&generator, &aliased, &Vec::new(), "/p/src/@generated/server.ts");
    assert!(output.contains("  users: userRouter,\n"));
}

#[test]
fn server_module_has_expected_sections() {
    let generator = StaticGenerator::new();
    let routers = vec![router(
        "UserRouter",
        Some("users"),
        vec![
            procedure(
                "getUser",
                ProcedureType::Query,
                Some("userSchema"),
                Some("userSchema"),
            ),
            procedure("createUser", ProcedureType::Mutation, None, None),
        ],
    )];
    let locations = vec![(
        "userSchema".to_string(),
        "/p/src/schemas/user.ts".to_string(),
    )];

    let output =
        generate_server_file(&generator, &routers, &locations, "/p/src/@generated/server.ts");

    assert!(output.starts_with("import { initTRPC } from \"@trpc/server\";\n"));
    assert!(output.contains("const userRouter = t.router({\n"));
    assert!(output.contains("  getUser: publicProcedure.input(userSchema).query("));
    assert!(output.contains("  createUser: publicProcedure.mutation("));
    assert!(output.contains("export const appRouter = t.router({\n  users: userRouter,\n});"));
    assert!(output.contains("export type AppRouter = typeof appRouter;"));
}

#[test]
fn mutation_keyword_is_rendered() {
    assert_eq!(ProcedureType::Query.as_keyword(), "query");
    assert_eq!(ProcedureType::Mutation.as_keyword(), "mutation");
}
