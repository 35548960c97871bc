//! The error taxonomy of the crate.
//!
//! Every error renders to the exact text its `message` contract states;
//! callers that need a displayable form call `message`. Errors that the
//! original operation raised from the file system arrive with the system's
//! message already as text.

use vstd::prelude::*;

use crate::text::{concat2, concat3, dec_str, str_to_string, usize_to_string};

verus! {

/// Errors of configuration loading and parsing.
#[derive(Debug, Clone, PartialEq, Eq)]
pub enum ConfigError {
    NotFound { path: String },
    ReadFailed { path: String, message: String },
    InvalidSyntax { path: String, message: String },
    MissingField { path: String, field: String },
    InvalidValue { path: String, field: String, message: String },
    ModuleNotFound { searched_paths: Vec<String> },
}

/// The `  - path` lines of the module-not-found message, one per searched
/// path, joined with newlines, starting at index `i`.
pub open spec fn spec_searched_lines(ps: Seq<String>, i: int) -> Seq<char>
    decreases ps.len() - i,
{
    if i < 0 || i >= ps.len() {
        Seq::empty()
    } else if i == ps.len() - 1 {
        "  - "@ + ps[i]@
    } else {
        "  - "@ + ps[i]@ + "\n"@ + spec_searched_lines(ps, i + 1)
    }
}

fn searched_lines(ps: &Vec<String>) -> (r: String)
    ensures
        r@ == spec_searched_lines(ps@, 0),
{
    let mut r = String::new();
    let n = ps.len();
    let mut i: usize = n;
    proof {
        assert(r@ =~= Seq::<char>::empty());
    }
    while i > 0
        invariant
            i <= n,
            n == ps@.len(),
            r@ == spec_searched_lines(ps@, i as int),
        decreases i,
    {
        i -= 1;
        let mut line = concat2("  - ", ps[i].as_str());
        if i + 1 < n {
            line.append("\n");
            line.append(r.as_str());
        }
        proof {
            if i + 1 < n {
                assert(line@ =~= "  - "@ + ps@[i as int]@ + "\n"@ + spec_searched_lines(
                    ps@,
                    i + 1,
                ));
            }
        }
        r = line;
    }
    r
}

impl ConfigError {
    /// The rendered message of this error.
    pub open spec fn spec_message(self) -> Seq<char> {
        match self {
            ConfigError::NotFound { path } => "Configuration file not found at '"@ + path@
                + "'. Run `nestjs-trpc init` to create one."@,
            ConfigError::ReadFailed { path, message } => "Failed to read configuration file '"@
                + path@ + "': "@ + message@,
            ConfigError::InvalidSyntax { path, message } => "Invalid configuration syntax in '"@
                + path@ + "': "@ + message@,
            ConfigError::MissingField { path, field } => "Missing required configuration field '"@
                + field@ + "' in '"@ + path@,
            ConfigError::InvalidValue { path, field, message } => "Invalid value for '"@ + field@
                + "' in '"@ + path@ + "': "@ + message@,
            ConfigError::ModuleNotFound { searched_paths } =>
                "Could not find TRPCModule.forRoot() in any of the following locations:\n"@
                + spec_searched_lines(searched_paths@, 0),
        }
    }

    /// Renders this error as text.
    pub fn message(&self) -> (r: String)
        ensures
            r@ == self.spec_message(),
    {
        match self {
            ConfigError::NotFound { path } => {
                let mut r = concat2("Configuration file not found at '", path.as_str());
                r.append("'. Run `nestjs-trpc init` to create one.");
                r
            },
            ConfigError::ReadFailed { path, message } => {
                let mut r = concat3("Failed to read configuration file '", path.as_str(), "': ");
                r.append(message.as_str());
                r
            },
            ConfigError::InvalidSyntax { path, message } => {
                let mut r = concat3("Invalid configuration syntax in '", path.as_str(), "': ");
                r.append(message.as_str());
                r
            },
            ConfigError::MissingField { path, field } => {
                let mut r = concat3(
                    "Missing required configuration field '",
                    field.as_str(),
                    "' in '",
                );
                r.append(path.as_str());
                r
            },
            ConfigError::InvalidValue { path, field, message } => {
                let mut r = concat3("Invalid value for '", field.as_str(), "' in '");
                r.append(path.as_str());
                r.append("': ");
                r.append(message.as_str());
                r
            },
            ConfigError::ModuleNotFound { searched_paths } => {
                let lines = searched_lines(searched_paths);
                concat2(
                    "Could not find TRPCModule.forRoot() in any of the following locations:\n",
                    lines.as_str(),
                )
            },
        }
    }
}

/// Errors of directory scanning.
#[derive(Debug, Clone, PartialEq, Eq)]
pub enum ScannerError {
    InvalidPattern(String, String),
    DirectoryNotFound(String),
    NotADirectory(String),
    NoFilesFound { pattern: String, root: String },
    IoError(String, String),
    ReadFailed { path: String, message: String },
}

impl ScannerError {
    /// The rendered message of this error.
    pub open spec fn spec_message(self) -> Seq<char> {
        match self {
            ScannerError::InvalidPattern(pattern, reason) => "Invalid glob pattern '"@ + pattern@
                + "': "@ + reason@,
            ScannerError::DirectoryNotFound(path) => "Directory not found: '"@ + path@ + "'"@,
            ScannerError::NotADirectory(path) => "Path is not a directory: '"@ + path@ + "'"@,
            ScannerError::NoFilesFound { pattern, root } =>
                "No router files found matching pattern '"@ + pattern@ + "' in '"@ + root@ + "'"@,
            ScannerError::IoError(path, message) => "I/O error reading '"@ + path@ + "': "@
                + message@,
            ScannerError::ReadFailed { path, message } => "Failed to read directory entry in '"@
                + path@ + "': "@ + message@,
        }
    }

    /// Renders this error as text.
    pub fn message(&self) -> (r: String)
        ensures
            r@ == self.spec_message(),
    {
        match self {
            ScannerError::InvalidPattern(pattern, reason) => {
                let mut r = concat3("Invalid glob pattern '", pattern.as_str(), "': ");
                r.append(reason.as_str());
                r
            },
            ScannerError::DirectoryNotFound(path) => {
                concat3("Directory not found: '", path.as_str(), "'")
            },
            ScannerError::NotADirectory(path) => {
                concat3("Path is not a directory: '", path.as_str(), "'")
            },
            ScannerError::NoFilesFound { pattern, root } => {
                let mut r = concat3(
                    "No router files found matching pattern '",
                    pattern.as_str(),
                    "' in '",
                );
                r.append(root.as_str());
                r.append("'");
                r
            },
            ScannerError::IoError(path, message) => {
                let mut r = concat3("I/O error reading '", path.as_str(), "': ");
                r.append(message.as_str());
                r
            },
            ScannerError::ReadFailed { path, message } => {
                let mut r = concat3("Failed to read directory entry in '", path.as_str(), "': ");
                r.append(message.as_str());
                r
            },
        }
    }
}

/// Errors of source parsing, as the surrounding tooling reports them.
#[derive(Debug, Clone, PartialEq, Eq)]
pub enum ParserError {
    ReadFailed { path: String, source: String },
    SyntaxError { path: String, line: usize, column: usize, message: String },
    MissingRouterDecorator { path: String, class_name: String },
    InvalidDecoratorArgs { path: String, decorator: String, message: String },
    UnsupportedNode { path: String, node_type: String },
}

impl ParserError {
    /// The rendered message of this error.
    pub open spec fn spec_message(self) -> Seq<char> {
        match self {
            ParserError::ReadFailed { path, source } => "Failed to read source file '"@ + path@
                + "': "@ + source@,
            ParserError::SyntaxError { path, line, column, message } => "Syntax error in '"@
                + path@ + "' at line "@ + dec_str(line as nat) + ", column "@ + dec_str(
                column as nat,
            ) + ": "@ + message@,
            ParserError::MissingRouterDecorator { path, class_name } => "Class '"@ + class_name@
                + "' in '"@ + path@ + "' is missing @Router decorator"@,
            ParserError::InvalidDecoratorArgs { path, decorator, message } =>
                "Invalid decorator arguments for @"@ + decorator@ + " in '"@ + path@ + "': "@
                + message@,
            ParserError::UnsupportedNode { path, node_type } => "Unsupported AST node type in '"@
                + path@ + "': "@ + node_type@,
        }
    }

    /// Renders this error as text.
    pub fn message(&self) -> (r: String)
        ensures
            r@ == self.spec_message(),
    {
        match self {
            ParserError::ReadFailed { path, source } => {
                let mut r = concat3("Failed to read source file '", path.as_str(), "': ");
                r.append(source.as_str());
                r
            },
            ParserError::SyntaxError { path, line, column, message } => {
                let line_text = usize_to_string(*line);
                let column_text = usize_to_string(*column);
                let mut r = concat3("Syntax error in '", path.as_str(), "' at line ");
                r.append(line_text.as_str());
                r.append(", column ");
                r.append(column_text.as_str());
                r.append(": ");
                r.append(message.as_str());
                r
            },
            ParserError::MissingRouterDecorator { path, class_name } => {
                let mut r = concat3("Class '", class_name.as_str(), "' in '");
                r.append(path.as_str());
                r.append("' is missing @Router decorator");
                r
            },
            ParserError::InvalidDecoratorArgs { path, decorator, message } => {
                let mut r = concat3("Invalid decorator arguments for @", decorator.as_str(),
                    " in '");
                r.append(path.as_str());
                r.append("': ");
                r.append(message.as_str());
                r
            },
            ParserError::UnsupportedNode { path, node_type } => {
                let mut r = concat3("Unsupported AST node type in '", path.as_str(), "': ");
                r.append(node_type.as_str());
                r
            },
        }
    }
}

/// Errors of cross-file import resolution.
#[derive(Debug, Clone, PartialEq, Eq)]
pub enum ImportError {
    CircularImport { cycle: String },
    Unresolved { name: String, source_path: String },
    BarrelResolutionFailed { name: String, barrel: String, message: String },
    ModuleNotFound { module: String, source_path: String },
}

impl ImportError {
    /// The rendered message of this error.
    pub open spec fn spec_message(self) -> Seq<char> {
        match self {
            ImportError::CircularImport { cycle } => "Circular import detected: "@ + cycle@,
            ImportError::Unresolved { name, source_path } => "Cannot resolve import '"@ + name@
                + "' from '"@ + source_path@ + "'"@,
            ImportError::BarrelResolutionFailed { name, barrel, message } => "Failed to resolve '"@
                + name@ + "' through barrel file '"@ + barrel@ + "': "@ + message@,
            ImportError::ModuleNotFound { module, source_path } => "Module not found: '"@ + module@
                + "' imported from '"@ + source_path@ + "'"@,
        }
    }

    /// Renders this error as text.
    pub fn message(&self) -> (r: String)
        ensures
            r@ == self.spec_message(),
    {
        match self {
            ImportError::CircularImport { cycle } => {
                concat2("Circular import detected: ", cycle.as_str())
            },
            ImportError::Unresolved { name, source_path } => {
                let mut r = concat3("Cannot resolve import '", name.as_str(), "' from '");
                r.append(source_path.as_str());
                r.append("'");
                r
            },
            ImportError::BarrelResolutionFailed { name, barrel, message } => {
                let mut r = concat3("Failed to resolve '", name.as_str(),
                    "' through barrel file '");
                r.append(barrel.as_str());
                r.append("': ");
                r.append(message.as_str());
                r
            },
            ImportError::ModuleNotFound { module, source_path } => {
                let mut r = concat3("Module not found: '", module.as_str(), "' imported from '");
                r.append(source_path.as_str());
                r.append("'");
                r
            },
        }
    }
}

/// Errors of output generation.
#[derive(Debug, Clone, PartialEq, Eq)]
pub enum GeneratorError {
    CreateDirFailed { path: String, message: String },
    WriteFailed { path: String, message: String },
    NoRouters,
    SchemaFlattenFailed { path: String, schema: String, message: String },
    UnresolvedSchema { path: String, name: String },
}

impl GeneratorError {
    /// The rendered message of this error.
    pub open spec fn spec_message(self) -> Seq<char> {
        match self {
            GeneratorError::CreateDirFailed { path, message } =>
                "Failed to create output directory '"@ + path@ + "': "@ + message@,
            GeneratorError::WriteFailed { path, message } => "Failed to write output file '"@
                + path@ + "': "@ + message@,
            GeneratorError::NoRouters =>
                "No routers found to generate. Check your router_pattern configuration."@,
            GeneratorError::SchemaFlattenFailed { path, schema, message } =>
                "Failed to flatten Zod schema '"@ + schema@ + "' in '"@ + path@ + "': "@
                + message@,
            GeneratorError::UnresolvedSchema { path, name } => "Unresolved schema reference '"@
                + name@ + "' in '"@ + path@ + "'. The variable was not found."@,
        }
    }

    /// Renders this error as text.
    pub fn message(&self) -> (r: String)
        ensures
            r@ == self.spec_message(),
    {
        match self {
            GeneratorError::CreateDirFailed { path, message } => {
                let mut r = concat3("Failed to create output directory '", path.as_str(), "': ");
                r.append(message.as_str());
                r
            },
            GeneratorError::WriteFailed { path, message } => {
                let mut r = concat3("Failed to write output file '", path.as_str(), "': ");
                r.append(message.as_str());
                r
            },
            GeneratorError::NoRouters => {
                str_to_string(
                    "No routers found to generate. Check your router_pattern configuration.",
                )
            },
            GeneratorError::SchemaFlattenFailed { path, schema, message } => {
                let mut r = concat3("Failed to flatten Zod schema '", schema.as_str(), "' in '");
                r.append(path.as_str());
                r.append("': ");
                r.append(message.as_str());
                r
            },
            GeneratorError::UnresolvedSchema { path, name } => {
                let mut r = concat3("Unresolved schema reference '", name.as_str(), "' in '");
                r.append(path.as_str());
                r.append("'. The variable was not found.");
                r
            },
        }
    }
}

/// The top-level error: any failure a whole run can end with.
#[derive(Debug, Clone, PartialEq, Eq)]
pub enum CliError {
    Config(ConfigError),
    Scanner(ScannerError),
    Parser(ParserError),
    Import(ImportError),
    Generator(GeneratorError),
    Io(String),
}

impl CliError {
    /// The rendered message of this error: the wrapped error's own message.
    pub open spec fn spec_message(self) -> Seq<char> {
        match self {
            CliError::Config(e) => e.spec_message(),
            CliError::Scanner(e) => e.spec_message(),
            CliError::Parser(e) => e.spec_message(),
            CliError::Import(e) => e.spec_message(),
            CliError::Generator(e) => e.spec_message(),
            CliError::Io(message) => "I/O error: "@ + message@,
        }
    }

    /// Renders this error as text.
    pub fn message(&self) -> (r: String)
        ensures
            r@ == self.spec_message(),
    {
        match self {
            CliError::Config(e) => e.message(),
            CliError::Scanner(e) => e.message(),
            CliError::Parser(e) => e.message(),
            CliError::Import(e) => e.message(),
            CliError::Generator(e) => e.message(),
            CliError::Io(message) => concat2("I/O error: ", message.as_str()),
        }
    }
}

impl From<ConfigError> for CliError {
    fn from(e: ConfigError) -> (r: CliError) {
        CliError::Config(e)
    }
}

impl vstd::std_specs::convert::FromSpecImpl<ConfigError> for CliError {
    open spec fn obeys_from_spec() -> bool {
        true
    }

    open spec fn from_spec(e: ConfigError) -> CliError {
        CliError::Config(e)
    }
}

impl From<ScannerError> for CliError {
    fn from(e: ScannerError) -> (r: CliError) {
        CliError::Scanner(e)
    }
}

impl vstd::std_specs::convert::FromSpecImpl<ScannerError> for CliError {
    open spec fn obeys_from_spec() -> bool {
        true
    }

    open spec fn from_spec(e: ScannerError) -> CliError {
        CliError::Scanner(e)
    }
}

impl From<ParserError> for CliError {
    fn from(e: ParserError) -> (r: CliError) {
        CliError::Parser(e)
    }
}

impl vstd::std_specs::convert::FromSpecImpl<ParserError> for CliError {
    open spec fn obeys_from_spec() -> bool {
        true
    }

    open spec fn from_spec(e: ParserError) -> CliError {
        CliError::Parser(e)
    }
}

impl From<ImportError> for CliError {
    fn from(e: ImportError) -> (r: CliError) {
        CliError::Import(e)
    }
}

impl vstd::std_specs::convert::FromSpecImpl<ImportError> for CliError {
    open spec fn obeys_from_spec() -> bool {
        true
    }

    open spec fn from_spec(e: ImportError) -> CliError {
        CliError::Import(e)
    }
}

impl From<GeneratorError> for CliError {
    fn from(e: GeneratorError) -> (r: CliError) {
        CliError::Generator(e)
    }
}

impl vstd::std_specs::convert::FromSpecImpl<GeneratorError> for CliError {
    open spec fn obeys_from_spec() -> bool {
        true
    }

    open spec fn from_spec(e: GeneratorError) -> CliError {
        CliError::Generator(e)
    }
}

} // verus!
