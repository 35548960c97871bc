//! Static analysis of decorator-annotated TypeScript router classes and
//! deterministic generation of the aggregate server module that wires them
//! into one RPC router definition.
//!
//! The crate works on an in-memory model of parsed source files: a caller
//! parses TypeScript into the tree types of [`ast`], collects the files of a
//! run into a [`project::Project`], and the analyses here resolve names across
//! files, flatten schema expressions, extract router metadata and emit the
//! output text.

use vstd::prelude::*;

pub mod ast;
pub mod config;
pub mod context;
pub mod decorator;
pub mod diagnostic;
pub mod discovery;
pub mod error;
pub mod flatten;
pub mod generation;
pub mod generator;
pub mod imports;
pub mod middleware;
pub mod module;
pub mod output;
pub mod paths;
pub mod procedure;
pub mod project;
pub mod router;
pub mod scanner;
pub mod server;
pub mod text;
pub mod validation;
pub mod watcher;

verus! {

/// Whether a procedure decorator declares a query or a mutation endpoint.
#[derive(Debug, Clone, Copy, PartialEq, Eq, Structural)]
pub enum ProcedureType {
    Query,
    Mutation,
}

/// One router class ready for generation: its name, its optional alias,
/// the file it came from, and its procedures in class order.
#[derive(Debug, PartialEq, Eq)]
pub struct RouterMetadata {
    pub name: String,
    pub alias: Option<String>,
    pub file_path: String,
    pub procedures: Vec<ProcedureMetadata>,
}

/// One decorated router method. A method carrying two procedure decorators
/// yields two entries; duplicates are intentional. A schema field given as
/// a bare identifier records that identifier under the matching `_ref`
/// field, and the schema text then equals the identifier's name.
#[derive(Debug, PartialEq, Eq)]
pub struct ProcedureMetadata {
    pub name: String,
    pub procedure_type: ProcedureType,
    pub input_schema: Option<String>,
    pub output_schema: Option<String>,
    pub input_schema_ref: Option<String>,
    pub output_schema_ref: Option<String>,
    pub schema_identifiers: Vec<String>,
}

impl ProcedureType {
    /// The keyword this procedure kind uses in generated output.
    pub fn as_keyword(&self) -> (r: &'static str)
        ensures
            *self is Query ==> r@ == "query"@,
            *self is Mutation ==> r@ == "mutation"@,
    {
        match self {
            ProcedureType::Query => "query",
            ProcedureType::Mutation => "mutation",
        }
    }
}

} // verus!
