//! Configuration: the generation and parsing settings, read from a parsed
//! configuration module whose default export is an object literal or a
//! `defineConfig` call around one.

use vstd::prelude::*;

use crate::ast::{Expr, Lit, ModuleItem, Prop, PropName, PropOrSpread};
use crate::error::ConfigError;
use crate::paths::{is_absolute_path, join_path, spec_is_absolute_path, spec_join_path};
use crate::text::{str_eq, str_to_string};

verus! {

/// The whole configuration: generation and parsing settings.
#[derive(Debug, Clone, PartialEq, Eq)]
pub struct Config {
    pub generation: GenerationConfig,
    pub parsing: ParsingConfig,
}

/// Where output goes, which files are routers, and where the root module
/// lives.
#[derive(Debug, Clone, PartialEq, Eq)]
pub struct GenerationConfig {
    pub output_path: String,
    pub router_pattern: String,
    pub root_module: String,
}

/// How sources are parsed.
#[derive(Debug, Clone, PartialEq, Eq)]
pub struct ParsingConfig {
    pub decorators: bool,
}

/// The built-in output path.
pub open spec fn spec_default_output_path() -> Seq<char> {
    "./src/@generated"@
}

/// The built-in router pattern.
pub open spec fn spec_default_router_pattern() -> Seq<char> {
    "src/**/*.router.ts"@
}

/// The built-in root module path.
pub open spec fn spec_default_root_module() -> Seq<char> {
    "src/app.module.ts"@
}

/// Whether a module has a default export.
pub open spec fn spec_has_default_export(body: Seq<ModuleItem>) -> bool {
    exists|i: int| 0 <= i < body.len() && (#[trigger] body[i]) matches ModuleItem::ExportDefaultExpr(_)
}


/// The first default-export expression of the module, if any.
pub open spec fn spec_first_default_export(body: Seq<ModuleItem>, i: int) -> Option<Expr>
    decreases body.len() - i,
{
    if i < 0 || i >= body.len() {
        None
    } else {
        match body[i] {
            ModuleItem::ExportDefaultExpr(e) => Some(e),
            _ => spec_first_default_export(body, i + 1),
        }
    }
}

/// The object a configuration export carries: the object literal itself,
/// or the first non-spread argument of a call when that is one.
pub open spec fn spec_config_object(e: Expr) -> Option<crate::ast::ObjectLit> {
    match e {
        Expr::Object(o) => Some(o),
        Expr::Call(c) => if c.args@.len() == 0 || c.args@[0].spread {
            None
        } else {
            match c.args@[0].expr {
                Expr::Object(o) => Some(o),
                _ => None,
            }
        },
        _ => None,
    }
}

/// The default configuration values.
pub open spec fn spec_config_is_default(c: Config) -> bool {
    c.generation.output_path@ == spec_default_output_path()
        && c.generation.router_pattern@ == spec_default_router_pattern()
        && c.generation.root_module@ == spec_default_root_module() && c.parsing.decorators
}

impl Default for Config {
    /// The configuration with every setting at its built-in default.
    fn default() -> (r: Config)
        ensures
            spec_config_is_default(r),
    {
        Config::new_default()
    }
}

impl Config {
    /// The configuration with every setting at its built-in default.
    pub fn new_default() -> (r: Config)
        ensures
            spec_config_is_default(r),
    {
        Config {
            generation: GenerationConfig {
                output_path: str_to_string("./src/@generated"),
                router_pattern: str_to_string("src/**/*.router.ts"),
                root_module: str_to_string("src/app.module.ts"),
            },
            parsing: ParsingConfig { decorators: true },
        }
    }

    /// Reads the configuration out of a parsed configuration module: its
    /// default export must be an object literal, or a call whose first
    /// argument is one; a `generation` section may set `outputPath`,
    /// `routerPattern` and `rootModule` as string literals, and a
    /// `parsing` section may set `decorators` as a boolean literal.
    /// Unknown fields are rejected with a syntax error naming the file;
    /// so is a module without a default export.
    #[verifier::loop_isolation(false)]
    pub fn parse(module: &crate::ast::Module, path: &str) -> (r: Result<Config, ConfigError>)
        ensures
            !spec_has_default_export(module.body@) ==> (r matches Err(e) && e matches
                ConfigError::InvalidSyntax { path: p, message } && p@ == path@ && message@
                == "No default export found in config file"@),
            (match spec_first_default_export(module.body@, 0) {
                Some(exported) => match spec_config_object(exported) {
                    Some(o) => o.props@.len() == 0 ==> (r matches Ok(c)
                        && spec_config_is_default(c)),
                    None => r is Err,
                },
                None => true,
            }),
    {
        let expression = match find_default_export(&module.body) {
            Some(e) => e,
            None => {
                return Err(
                    ConfigError::InvalidSyntax {
                        path: str_to_string(path),
                        message: str_to_string("No default export found in config file"),
                    },
                );
            },
        };
        let object = match extract_object(expression) {
            Some(o) => o,
            None => {
                return Err(
                    ConfigError::InvalidSyntax {
                        path: str_to_string(path),
                        message: str_to_string(
                            "Default export must be an object literal or defineConfig call",
                        ),
                    },
                );
            },
        };
        let mut config = Config::new_default();
        let mut i: usize = 0;
        while i < object.props.len()
            invariant
                object.props@.len() == 0 ==> spec_config_is_default(config),
            decreases object.props@.len() - i,
        {
            match &object.props[i] {
                PropOrSpread::Prop(Prop::KeyValue(kv)) => {
                    let key = match property_key(&kv.key) {
                        Some(k) => k,
                        None => {
                            i += 1;
                            continue ;
                        },
                    };
                    if str_eq(key.as_str(), "generation") {
                        match &kv.value {
                            Expr::Object(section) => {
                                match apply_generation_section(
                                    &mut config.generation,
                                    section,
                                    path,
                                ) {
                                    Ok(()) => {},
                                    Err(e) => {
                                        return Err(e);
                                    },
                                }
                            },
                            _ => {},
                        }
                    } else if str_eq(key.as_str(), "parsing") {
                        match &kv.value {
                            Expr::Object(section) => {
                                match apply_parsing_section(&mut config.parsing, section, path) {
                                    Ok(()) => {},
                                    Err(e) => {
                                        return Err(e);
                                    },
                                }
                            },
                            _ => {},
                        }
                    } else {
                        let mut message = str_to_string("Unknown field: ");
                        message.append(key.as_str());
                        return Err(
                            ConfigError::InvalidSyntax { path: str_to_string(path), message },
                        );
                    }
                },
                _ => {},
            }
            i += 1;
        }
        Ok(config)
    }

    /// The same configuration with another output path.
    pub fn with_output_path(self, output_path: String) -> (r: Config)
        ensures
            r.generation.output_path == output_path,
            r.generation.router_pattern == self.generation.router_pattern,
            r.generation.root_module == self.generation.root_module,
            r.parsing == self.parsing,
    {
        Config {
            generation: GenerationConfig { output_path, ..self.generation },
            parsing: self.parsing,
        }
    }

    /// The same configuration with its relative paths joined onto `base`;
    /// absolute paths stay as they are.
    pub fn resolve_paths(self, base: &str) -> (r: Config)
        ensures
            r.generation.output_path@ == (if spec_is_absolute_path(self.generation.output_path@) {
                self.generation.output_path@
            } else {
                spec_join_path(base@, self.generation.output_path@)
            }),
            r.generation.root_module@ == (if spec_is_absolute_path(self.generation.root_module@) {
                self.generation.root_module@
            } else {
                spec_join_path(base@, self.generation.root_module@)
            }),
            r.generation.router_pattern == self.generation.router_pattern,
            r.parsing == self.parsing,
    {
        let output_path = if is_absolute_path(self.generation.output_path.as_str()) {
            self.generation.output_path
        } else {
            join_path(base, self.generation.output_path.as_str())
        };
        let root_module = if is_absolute_path(self.generation.root_module.as_str()) {
            self.generation.root_module
        } else {
            join_path(base, self.generation.root_module.as_str())
        };
        Config {
            generation: GenerationConfig {
                output_path,
                router_pattern: self.generation.router_pattern,
                root_module,
            },
            parsing: self.parsing,
        }
    }
}

fn find_default_export<'a>(body: &'a Vec<ModuleItem>) -> (r: Option<&'a Expr>)
    ensures
        match r {
            Some(e) => spec_has_default_export(body@) && spec_first_default_export(body@, 0)
                == Some(*e),
            None => !spec_has_default_export(body@) && spec_first_default_export(body@, 0)
                is None,
        },
{
    let mut i: usize = 0;
    while i < body.len()
        invariant
            i <= body@.len(),
            forall|j: int|
                0 <= j < i ==> !((#[trigger] body@[j]) matches ModuleItem::ExportDefaultExpr(_)),
            spec_first_default_export(body@, 0) == spec_first_default_export(body@, i as int),
        decreases body@.len() - i,
    {
        match &body[i] {
            ModuleItem::ExportDefaultExpr(e) => {
                return Some(e);
            },
            _ => {},
        }
        i += 1;
    }
    None
}

fn extract_object<'a>(expression: &'a Expr) -> (r: Option<&'a crate::ast::ObjectLit>)
    ensures
        match r {
            Some(o) => spec_config_object(*expression) == Some(*o),
            None => spec_config_object(*expression) is None,
        },
{
    match expression {
        Expr::Object(o) => Some(o),
        Expr::Call(c) => {
            if c.args.len() == 0 {
                return None;
            }
            if c.args[0].spread {
                return None;
            }
            match &c.args[0].expr {
                Expr::Object(o) => Some(o),
                _ => None,
            }
        },
        _ => None,
    }
}

fn property_key<'a>(key: &'a PropName) -> (r: Option<&'a String>) {
    match key {
        PropName::Ident(name) => Some(name),
        PropName::Str(value) => Some(value),
        _ => None,
    }
}

fn apply_generation_section(
    config: &mut GenerationConfig,
    section: &crate::ast::ObjectLit,
    path: &str,
) -> (r: Result<(), ConfigError>) {
    let mut i: usize = 0;
    while i < section.props.len()
        decreases section.props@.len() - i,
    {
        match &section.props[i] {
            PropOrSpread::Prop(Prop::KeyValue(kv)) => {
                let key = match property_key(&kv.key) {
                    Some(k) => k,
                    None => {
                        i += 1;
                        continue ;
                    },
                };
                if str_eq(key.as_str(), "outputPath") {
                    match string_literal(&kv.value) {
                        Some(value) => {
                            config.output_path = value;
                        },
                        None => {},
                    }
                } else if str_eq(key.as_str(), "routerPattern") {
                    match string_literal(&kv.value) {
                        Some(value) => {
                            config.router_pattern = value;
                        },
                        None => {},
                    }
                } else if str_eq(key.as_str(), "rootModule") {
                    match string_literal(&kv.value) {
                        Some(value) => {
                            config.root_module = value;
                        },
                        None => {},
                    }
                } else {
                    let mut message = str_to_string("Unknown generation field: ");
                    message.append(key.as_str());
                    return Err(ConfigError::InvalidSyntax { path: str_to_string(path), message });
                }
            },
            _ => {},
        }
        i += 1;
    }
    Ok(())
}

fn apply_parsing_section(
    config: &mut ParsingConfig,
    section: &crate::ast::ObjectLit,
    path: &str,
) -> (r: Result<(), ConfigError>) {
    let mut i: usize = 0;
    while i < section.props.len()
        decreases section.props@.len() - i,
    {
        match &section.props[i] {
            PropOrSpread::Prop(Prop::KeyValue(kv)) => {
                let key = match property_key(&kv.key) {
                    Some(k) => k,
                    None => {
                        i += 1;
                        continue ;
                    },
                };
                if str_eq(key.as_str(), "decorators") {
                    match &kv.value {
                        Expr::Lit(Lit::Bool(value), _t) => {
                            config.decorators = *value;
                        },
                        _ => {},
                    }
                } else {
                    let mut message = str_to_string("Unknown parsing field: ");
                    message.append(key.as_str());
                    return Err(ConfigError::InvalidSyntax { path: str_to_string(path), message });
                }
            },
            _ => {},
        }
        i += 1;
    }
    Ok(())
}

fn string_literal(expression: &Expr) -> (r: Option<String>) {
    match expression {
        Expr::Lit(Lit::Str(value), _t) => Some(str_to_string(value.as_str())),
        _ => None,
    }
}

} // verus!
