use nestjs_trpc::generator::{calculate_relative_path, generate_static_section, StaticGenerator};
use nestjs_trpc::module::TransformerInfo;

#[test]
fn test_static_generator_creation() {
    let generator = StaticGenerator::new();
    assert!(!generator.use_single_quotes);
    assert!(generator.use_semicolons);
}

#[test]
fn test_static_generator_default() {
    let generator = StaticGenerator::new();
    assert!(!generator.use_single_quotes);
    assert!(generator.use_semicolons);
}

#[test]
fn test_generate_static_declarations() {
    let generator = StaticGenerator::new();
    let output = generator.generate_static_declarations();

    assert!(output.contains("import { initTRPC } from \"@trpc/server\";"));
    assert!(output.contains("import { z } from \"zod\";"));
    assert!(output.contains("const t = initTRPC.create();"));
    assert!(output.contains("const publicProcedure = t.procedure;"));
}

#[test]
fn test_generate_static_declarations_with_single_quotes() {
    let generator = StaticGenerator::new().with_single_quotes(true);
    let output = generator.generate_static_declarations();

    assert!(output.contains("import { initTRPC } from '@trpc/server';"));
    assert!(output.contains("import { z } from 'zod';"));
}

#[test]
fn test_generate_static_declarations_without_semicolons() {
    let generator = StaticGenerator::new().with_semicolons(false);
    let output = generator.generate_static_declarations();

    assert!(output.contains("import { initTRPC } from \"@trpc/server\"\n"));
    assert!(output.contains("import { z } from \"zod\"\n"));
    assert!(output.contains("const t = initTRPC.create()\n"));
    assert!(output.contains("const publicProcedure = t.procedure\n"));
    assert!(!output.contains(';'));
}

#[test]
fn test_generate_trpc_import() {
    let generator = StaticGenerator::new();
    let output = generator.generate_trpc_import();
    assert_eq!(output, "import { initTRPC } from \"@trpc/server\";");
}

#[test]
fn test_generate_zod_import() {
    let generator = StaticGenerator::new();
    let output = generator.generate_zod_import();
    assert_eq!(output, "import { z } from \"zod\";");
}

#[test]
fn test_generate_t_declaration() {
    let generator = StaticGenerator::new();
    let output = generator.generate_t_declaration();
    assert_eq!(output, "const t = initTRPC.create();");
}

#[test]
fn test_generate_public_procedure_declaration() {
    let generator = StaticGenerator::new();
    let output = generator.generate_public_procedure_declaration();
    assert_eq!(output, "const publicProcedure = t.procedure;");
}

#[test]
fn test_generate_schema_imports() {
    let generator = StaticGenerator::new();

    let schema_locations: Vec<(String, String)> = vec![
        (
            "userSchema".to_string(),
            "src/schemas/user.schema.ts".to_string(),
        ),
        (
            "postSchema".to_string(),
            "src/schemas/post.schema.ts".to_string(),
        ),
    ];

    let output_path = "src/@generated/server.ts";
    let schema_names: Vec<String> = vec!["userSchema".to_string(), "postSchema".to_string()];

    let output = generator.generate_schema_imports(&schema_names, &schema_locations, output_path);

    assert!(output.contains("import { userSchema }"));
    assert!(output.contains("import { postSchema }"));
    assert!(output.contains("../schemas/user.schema"));
    assert!(output.contains("../schemas/post.schema"));
}

#[test]
fn test_generate_schema_imports_empty() {
    let generator = StaticGenerator::new();
    let schema_locations: Vec<(String, String)> = Vec::new();
    let schema_names: Vec<String> = Vec::new();
    let output_path = "src/@generated/server.ts";

    let output = generator.generate_schema_imports(&schema_names, &schema_locations, output_path);

    assert!(output.is_empty());
}

#[test]
fn test_calculate_relative_path() {
    let result = calculate_relative_path("src/@generated", "src/@generated/types.ts");
    assert_eq!(result, "./types");

    let result = calculate_relative_path("src/@generated", "src/schemas/user.ts");
    assert_eq!(result, "../schemas/user");
}

#[test]
fn test_static_declarations_format() {
    let generator = StaticGenerator::new();
    let output = generator.generate_static_declarations();

    let lines: Vec<&str> = output.lines().collect();
    assert_eq!(lines.len(), 5);

    assert!(lines[0].starts_with("import"));
    assert!(lines[1].starts_with("import"));
    assert!(lines[2].is_empty());
    assert!(lines[3].starts_with("const t"));
    assert!(lines[4].starts_with("const publicProcedure"));
}

#[test]
fn mod_test_convenience_function() {
    let output = generate_static_section();

    let generator = StaticGenerator::new();
    let expected = generator.generate_static_declarations();

    assert_eq!(output, expected);
}

#[test]
fn test_builder_pattern_chaining() {
    let generator = StaticGenerator::new()
        .with_single_quotes(true)
        .with_semicolons(false);

    assert!(generator.use_single_quotes);
    assert!(!generator.use_semicolons);
}

#[test]
fn test_output_matches_expected_format() {
    let generator = StaticGenerator::new();
    let output = generator.generate_static_declarations();

    let expected = r#"import { initTRPC } from "@trpc/server";
import { z } from "zod";

const t = initTRPC.create();
const publicProcedure = t.procedure;
"#;

    assert_eq!(output, expected);
}

#[test]
fn test_generate_static_declarations_with_default_transformer() {
    let transformer = TransformerInfo {
        package_name: "superjson".to_string(),
        import_name: "superjson".to_string(),
        is_default_import: true,
    };
    let generator = StaticGenerator::new().with_transformer(Some(transformer));
    let output = generator.generate_static_declarations();

    assert!(output.contains("import superjson from \"superjson\";"));
    assert!(output.contains("const t = initTRPC.create({ transformer: superjson });"));
    assert!(output.contains("const publicProcedure = t.procedure;"));
}

#[test]
fn test_generate_static_declarations_with_named_transformer() {
    let transformer = TransformerInfo {
        package_name: "custom-transformer".to_string(),
        import_name: "myTransformer".to_string(),
        is_default_import: false,
    };
    let generator = StaticGenerator::new().with_transformer(Some(transformer));
    let output = generator.generate_static_declarations();

    assert!(output.contains("import { myTransformer } from \"custom-transformer\";"));
    assert!(output.contains("const t = initTRPC.create({ transformer: myTransformer });"));
}

#[test]
fn test_generate_static_declarations_transformer_with_single_quotes() {
    let transformer = TransformerInfo {
        package_name: "superjson".to_string(),
        import_name: "superjson".to_string(),
        is_default_import: true,
    };
    let generator = StaticGenerator::new()
        .with_single_quotes(true)
        .with_transformer(Some(transformer));
    let output = generator.generate_static_declarations();

    assert!(output.contains("import superjson from 'superjson';"));
    assert!(output.contains("import { initTRPC } from '@trpc/server';"));
}

#[test]
fn test_generate_static_declarations_transformer_without_semicolons() {
    let transformer = TransformerInfo {
        package_name: "superjson".to_string(),
        import_name: "superjson".to_string(),
        is_default_import: true,
    };
    let generator = StaticGenerator::new()
        .with_semicolons(false)
        .with_transformer(Some(transformer));
    let output = generator.generate_static_declarations();

    assert!(output.contains("import superjson from \"superjson\"\n"));
    assert!(output.contains("const t = initTRPC.create({ transformer: superjson })\n"));
    assert!(!output.contains(';'));
}

#[test]
fn test_generate_t_declaration_with_transformer() {
    let transformer = TransformerInfo {
        package_name: "superjson".to_string(),
        import_name: "superjson".to_string(),
        is_default_import: true,
    };
    let generator = StaticGenerator::new().with_transformer(Some(transformer));
    let output = generator.generate_t_declaration();

    assert_eq!(
        output,
        "const t = initTRPC.create({ transformer: superjson });"
    );
}

#[test]
fn test_generate_t_declaration_without_transformer() {
    let generator = StaticGenerator::new();
    let output = generator.generate_t_declaration();
    assert_eq!(output, "const t = initTRPC.create();");
}

#[test]
fn test_with_transformer_builder() {
    let transformer = TransformerInfo {
        package_name: "superjson".to_string(),
        import_name: "superjson".to_string(),
        is_default_import: true,
    };
    let generator = StaticGenerator::new().with_transformer(Some(transformer.clone()));
    assert!(generator.transformer.is_some());
    assert_eq!(generator.transformer.unwrap(), transformer);
}

#[test]
fn test_with_transformer_none() {
    let generator = StaticGenerator::new().with_transformer(None);
    assert!(generator.transformer.is_none());
}

#[test]
fn test_transformer_output_format() {
    let transformer = TransformerInfo {
        package_name: "superjson".to_string(),
        import_name: "superjson".to_string(),
        is_default_import: true,
    };
    let generator = StaticGenerator::new().with_transformer(Some(transformer));
    let output = generator.generate_static_declarations();

    let expected = r#"import { initTRPC } from "@trpc/server";
import { z } from "zod";
import superjson from "superjson";

const t = initTRPC.create({ transformer: superjson });
const publicProcedure = t.procedure;
"#;

    assert_eq!(output, expected);
}
