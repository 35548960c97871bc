//! The module extractor: finds the application module's `Module` decorator,
//! the router-module registration call inside its `imports` array, and the
//! options that call carries; and resolves a transformer identifier to the
//! import that binds it.

use vstd::prelude::*;

use crate::ast::{
    Callee, Decorator, Expr, ImportSpecifier, Lit, MemberProp, ModuleItem, Prop, PropName,
    PropOrSpread,
};
use crate::imports::module_resolution::{resolve_module_path};
use crate::paths::parent_dir;
use crate::project::{ParsedFile, Project};
use crate::text::{str_eq, str_to_string};

verus! {

/// The options read from the router-module registration call: the context
/// class identifier, the schema output path, and the transformer
/// identifier, each when present.
#[derive(Debug, Clone, PartialEq, Eq, Default)]
pub struct TrpcModuleOptions {
    pub context_class_name: Option<String>,
    pub auto_schema_file: Option<String>,
    pub transformer_identifier: Option<String>,
}

/// A resolved transformer import: the package or path it comes from, the
/// bound local name, and whether it was the module's default export.
#[derive(Debug, Clone, PartialEq, Eq)]
pub struct TransformerInfo {
    pub package_name: String,
    pub import_name: String,
    pub is_default_import: bool,
}

/// The view of extracted options.
pub struct OptionsView {
    pub context_class_name: Option<Seq<char>>,
    pub auto_schema_file: Option<Seq<char>>,
    pub transformer_identifier: Option<Seq<char>>,
}

/// The empty options view.
pub open spec fn spec_options_empty() -> OptionsView {
    OptionsView { context_class_name: None, auto_schema_file: None, transformer_identifier: None }
}

/// The view of an options value.
pub open spec fn spec_options_view(o: TrpcModuleOptions) -> OptionsView {
    OptionsView {
        context_class_name: match o.context_class_name {
            Some(s) => Some(s@),
            None => None,
        },
        auto_schema_file: match o.auto_schema_file {
            Some(s) => Some(s@),
            None => None,
        },
        transformer_identifier: match o.transformer_identifier {
            Some(s) => Some(s@),
            None => None,
        },
    }
}

/// The options after applying the properties of the registration call's
/// argument from `i` on: a `context` identifier, an `autoSchemaFile` string
/// and a `transformer` identifier are recorded; later keys override.
pub open spec fn spec_apply_options(props: Seq<PropOrSpread>, i: int, acc: OptionsView) -> OptionsView
    decreases props.len() - i,
{
    if i < 0 || i >= props.len() {
        acc
    } else {
        let acc2 = match props[i] {
            PropOrSpread::Prop(Prop::KeyValue(kv)) => match crate::decorator::spec_prop_key_name(
                kv.key,
            ) {
                Some(k) => if k == "context"@ {
                    match kv.value {
                        Expr::Ident(name) => OptionsView { context_class_name: Some(name@), ..acc },
                        _ => acc,
                    }
                } else if k == "autoSchemaFile"@ {
                    match kv.value {
                        Expr::Lit(Lit::Str(value), _t) => OptionsView {
                            auto_schema_file: Some(value@),
                            ..acc
                        },
                        _ => acc,
                    }
                } else if k == "transformer"@ {
                    match kv.value {
                        Expr::Ident(name) => OptionsView {
                            transformer_identifier: Some(name@),
                            ..acc
                        },
                        _ => acc,
                    }
                } else {
                    acc
                },
                None => acc,
            },
            _ => acc,
        };
        spec_apply_options(props, i + 1, acc2)
    }
}

/// Whether a call is `TRPCModule.forRoot(...)`.
pub open spec fn spec_is_for_root_call(c: crate::ast::CallExpr) -> bool {
    match c.callee {
        Callee::Expr(callee) => match *callee {
            Expr::Member(m) => (match *m.obj {
                Expr::Ident(obj) => obj@ == "TRPCModule"@,
                _ => false,
            }) && (match m.prop {
                MemberProp::Ident(p) => p@ == "forRoot"@,
                _ => false,
            }),
            _ => false,
        },
        Callee::Other => false,
    }
}


/// The options of one element of the `imports` array: present exactly when
/// the element is a `TRPCModule.forRoot(...)` call with an object argument,
/// and then read from that object.
pub open spec fn spec_for_root_options(e: Expr) -> Option<OptionsView> {
    match e {
        Expr::Call(c) => if spec_is_for_root_call(c) && c.args@.len() > 0 {
            match c.args@[0].expr {
                Expr::Object(obj) => Some(
                    spec_apply_options(obj.props@, 0, spec_options_empty()),
                ),
                _ => None,
            }
        } else {
            None
        },
        _ => None,
    }
}

/// The options of the first registration call among the `imports` array's
/// elements from `i` on.
pub open spec fn spec_imports_options_from(
    elems: Seq<Option<crate::ast::ExprOrSpread>>,
    i: int,
) -> Option<OptionsView>
    decreases elems.len() - i,
{
    if i < 0 || i >= elems.len() {
        None
    } else {
        match elems[i] {
            Some(el) => match spec_for_root_options(el.expr) {
                Some(o) => Some(o),
                None => spec_imports_options_from(elems, i + 1),
            },
            None => spec_imports_options_from(elems, i + 1),
        }
    }
}

/// The first `imports` property with an array value among an object's
/// properties from `i` on.
pub open spec fn spec_imports_array_from(props: Seq<PropOrSpread>, i: int) -> Option<
    crate::ast::ArrayLit,
>
    decreases props.len() - i,
{
    if i < 0 || i >= props.len() {
        None
    } else {
        match props[i] {
            PropOrSpread::Prop(Prop::KeyValue(kv)) => match crate::decorator::spec_prop_key_name(
                kv.key,
            ) {
                Some(k) => if k == "imports"@ {
                    match kv.value {
                        Expr::Array(a) => Some(a),
                        _ => spec_imports_array_from(props, i + 1),
                    }
                } else {
                    spec_imports_array_from(props, i + 1)
                },
                None => spec_imports_array_from(props, i + 1),
            },
            _ => spec_imports_array_from(props, i + 1),
        }
    }
}

/// The options a single decorator yields: it must be a `Module(...)` call
/// with an object argument whose `imports` array holds a registration
/// call.
pub open spec fn spec_decorator_options(d: Decorator) -> Option<OptionsView> {
    match d.expr {
        Expr::Call(c) => {
            let is_module = match c.callee {
                Callee::Expr(callee) => match *callee {
                    Expr::Ident(name) => name@ == "Module"@,
                    _ => false,
                },
                Callee::Other => false,
            };
            if is_module && c.args@.len() > 0 {
                match c.args@[0].expr {
                    Expr::Object(o) => match spec_imports_array_from(o.props@, 0) {
                        Some(a) => spec_imports_options_from(a.elems@, 0),
                        None => None,
                    },
                    _ => None,
                }
            } else {
                None
            }
        },
        _ => None,
    }
}

/// The options of the first yielding decorator from `i` on.
pub open spec fn spec_decorators_options_from(ds: Seq<Decorator>, i: int) -> Option<OptionsView>
    decreases ds.len() - i,
{
    if i < 0 || i >= ds.len() {
        None
    } else {
        match spec_decorator_options(ds[i]) {
            Some(o) => Some(o),
            None => spec_decorators_options_from(ds, i + 1),
        }
    }
}

/// The router-module options of a file: those of the first top-level class
/// from `i` on whose decorators yield any.
pub open spec fn spec_module_options_from(body: Seq<ModuleItem>, i: int) -> Option<OptionsView>
    decreases body.len() - i,
{
    if i < 0 || i >= body.len() {
        None
    } else {
        match body[i] {
            ModuleItem::ClassDecl { name: _, class, exported: _ } => match
                spec_decorators_options_from(class.decorators@, 0) {
                Some(o) => Some(o),
                None => spec_module_options_from(body, i + 1),
            },
            _ => spec_module_options_from(body, i + 1),
        }
    }
}

/// Finds the router-module registration and its options; it carries no
/// state.
#[derive(Debug, Clone, PartialEq, Eq)]
pub struct ModuleParser {}

impl ModuleParser {
    /// A module parser.
    pub fn new() -> (r: ModuleParser) {
        ModuleParser {}
    }

    /// Extracts the router-module options of the file: searches every
    /// top-level class's decorators for a `Module(...)` call, its argument's
    /// `imports` array for a `TRPCModule.forRoot(...)` call, and reads the
    /// `context`, `autoSchemaFile` and `transformer` options from that
    /// call's object argument. Absence at any step yields nothing.
    #[verifier::loop_isolation(false)]
    pub fn extract_trpc_options(&self, parsed_file: &ParsedFile) -> (r: Option<TrpcModuleOptions>)
        ensures
            match r {
                Some(o) => spec_module_options_from(parsed_file.module.body@, 0) == Some(
                    spec_options_view(o),
                ),
                None => spec_module_options_from(parsed_file.module.body@, 0) is None,
            },
    {
        let body = &parsed_file.module.body;
        let mut i: usize = 0;
        while i < body.len()
            invariant
                i <= body@.len(),
                spec_module_options_from(body@, 0) == spec_module_options_from(body@, i as int),
            decreases body@.len() - i,
        {
            let class = match &body[i] {
                ModuleItem::ClassDecl { name: _, class, exported: _ } => Some(class),
                _ => None,
            };
            match class {
                Some(class) => {
                    match self.extract_from_class_decorators(&class.decorators) {
                        Some(options) => {
                            return Some(options);
                        },
                        None => {},
                    }
                },
                None => {},
            }
            i += 1;
        }
        None
    }

    #[verifier::loop_isolation(false)]
    fn extract_from_class_decorators(&self, decorators: &Vec<Decorator>) -> (r: Option<
        TrpcModuleOptions,
    >)
        ensures
            match r {
                Some(o) => spec_decorators_options_from(decorators@, 0) == Some(
                    spec_options_view(o),
                ),
                None => spec_decorators_options_from(decorators@, 0) is None,
            },
    {
        let mut i: usize = 0;
        while i < decorators.len()
            invariant
                i <= decorators@.len(),
                spec_decorators_options_from(decorators@, 0) == spec_decorators_options_from(
                    decorators@,
                    i as int,
                ),
            decreases decorators@.len() - i,
        {
            match self.extract_from_decorator(&decorators[i]) {
                Some(options) => {
                    return Some(options);
                },
                None => {},
            }
            i += 1;
        }
        None
    }

    fn extract_from_decorator(&self, decorator: &Decorator) -> (r: Option<TrpcModuleOptions>)
        ensures
            match r {
                Some(o) => spec_decorator_options(*decorator) == Some(spec_options_view(o)),
                None => spec_decorator_options(*decorator) is None,
            },
    {
        let call = match &decorator.expr {
            Expr::Call(c) => c,
            _ => {
                return None;
            },
        };
        let is_module = match &call.callee {
            Callee::Expr(callee) => match &**callee {
                Expr::Ident(name) => str_eq(name.as_str(), "Module"),
                _ => false,
            },
            Callee::Other => false,
        };
        if !is_module {
            return None;
        }
        if call.args.len() == 0 {
            return None;
        }
        let module_options = match &call.args[0].expr {
            Expr::Object(o) => o,
            _ => {
                return None;
            },
        };
        let imports_array = match self.find_imports_property(module_options) {
            Some(a) => a,
            None => {
                return None;
            },
        };
        self.find_trpc_module_in_imports(imports_array)
    }

    #[verifier::loop_isolation(false)]
    fn find_imports_property<'a>(&self, object: &'a crate::ast::ObjectLit) -> (r: Option<
        &'a crate::ast::ArrayLit,
    >)
        ensures
            match r {
                Some(a) => spec_imports_array_from(object.props@, 0) == Some(*a),
                None => spec_imports_array_from(object.props@, 0) is None,
            },
    {
        let mut i: usize = 0;
        while i < object.props.len()
            invariant
                i <= object.props@.len(),
                spec_imports_array_from(object.props@, 0) == spec_imports_array_from(
                    object.props@,
                    i as int,
                ),
            decreases object.props@.len() - i,
        {
            match &object.props[i] {
                PropOrSpread::Prop(Prop::KeyValue(kv)) => {
                    let is_imports = match &kv.key {
                        PropName::Ident(name) => str_eq(name.as_str(), "imports"),
                        PropName::Str(value) => str_eq(value.as_str(), "imports"),
                        _ => false,
                    };
                    if is_imports {
                        match &kv.value {
                            Expr::Array(a) => {
                                return Some(a);
                            },
                            _ => {},
                        }
                    }
                },
                _ => {},
            }
            i += 1;
        }
        None
    }

    #[verifier::loop_isolation(false)]
    fn find_trpc_module_in_imports(&self, imports: &crate::ast::ArrayLit) -> (r: Option<
        TrpcModuleOptions,
    >)
        ensures
            match r {
                Some(o) => spec_imports_options_from(imports.elems@, 0) == Some(
                    spec_options_view(o),
                ),
                None => spec_imports_options_from(imports.elems@, 0) is None,
            },
    {
        let mut i: usize = 0;
        while i < imports.elems.len()
            invariant
                i <= imports.elems@.len(),
                spec_imports_options_from(imports.elems@, 0) == spec_imports_options_from(
                    imports.elems@,
                    i as int,
                ),
            decreases imports.elems@.len() - i,
        {
            match &imports.elems[i] {
                Some(element) => {
                    match self.extract_trpc_for_root(&element.expr) {
                        Some(options) => {
                            return Some(options);
                        },
                        None => {},
                    }
                },
                None => {},
            }
            i += 1;
        }
        None
    }

    fn extract_trpc_for_root(&self, expression: &Expr) -> (r: Option<TrpcModuleOptions>)
        ensures
            match r {
                Some(o) => spec_for_root_options(*expression) == Some(spec_options_view(o)),
                None => spec_for_root_options(*expression) is None,
            },
    {
        let call = match expression {
            Expr::Call(c) => c,
            _ => {
                return None;
            },
        };
        let is_for_root = match &call.callee {
            Callee::Expr(callee) => match &**callee {
                Expr::Member(m) => {
                    let obj_is_trpc = match &*m.obj {
                        Expr::Ident(obj) => str_eq(obj.as_str(), "TRPCModule"),
                        _ => false,
                    };
                    let prop_is_for_root = match &m.prop {
                        MemberProp::Ident(p) => str_eq(p.as_str(), "forRoot"),
                        _ => false,
                    };
                    obj_is_trpc && prop_is_for_root
                },
                _ => false,
            },
            Callee::Other => false,
        };
        if !is_for_root {
            return None;
        }
        if call.args.len() == 0 {
            return None;
        }
        let options_object = match &call.args[0].expr {
            Expr::Object(o) => o,
            _ => {
                return None;
            },
        };
        let options = self.extract_options_from_object(options_object);
        proof {
            assert(spec_is_for_root_call(*call));
        }
        Some(options)
    }

    #[verifier::loop_isolation(false)]
    fn extract_options_from_object(&self, object: &crate::ast::ObjectLit) -> (r: TrpcModuleOptions)
        ensures
            spec_options_view(r) == spec_apply_options(object.props@, 0, spec_options_empty()),
    {
        let mut acc = TrpcModuleOptions {
            context_class_name: None,
            auto_schema_file: None,
            transformer_identifier: None,
        };
        let mut i: usize = 0;
        while i < object.props.len()
            invariant
                i <= object.props@.len(),
                spec_apply_options(object.props@, 0, spec_options_empty()) == spec_apply_options(
                    object.props@,
                    i as int,
                    spec_options_view(acc),
                ),
            decreases object.props@.len() - i,
        {
            match &object.props[i] {
                PropOrSpread::Prop(Prop::KeyValue(kv)) => {
                    let key_name: Option<&String> = match &kv.key {
                        PropName::Ident(name) => Some(name),
                        PropName::Str(value) => Some(value),
                        _ => None,
                    };
                    match key_name {
                        Some(k) => {
                            if str_eq(k.as_str(), "context") {
                                match &kv.value {
                                    Expr::Ident(name) => {
                                        acc.context_class_name = Some(
                                            str_to_string(name.as_str()),
                                        );
                                    },
                                    _ => {},
                                }
                            } else if str_eq(k.as_str(), "autoSchemaFile") {
                                match &kv.value {
                                    Expr::Lit(Lit::Str(value), _t) => {
                                        acc.auto_schema_file = Some(
                                            str_to_string(value.as_str()),
                                        );
                                    },
                                    _ => {},
                                }
                            } else if str_eq(k.as_str(), "transformer") {
                                match &kv.value {
                                    Expr::Ident(name) => {
                                        acc.transformer_identifier = Some(
                                            str_to_string(name.as_str()),
                                        );
                                    },
                                    _ => {},
                                }
                            }
                        },
                        None => {},
                    }
                },
                _ => {},
            }
            i += 1;
        }
        acc
    }
}

/// Extracts the router-module options of a file with a fresh parser.
pub fn extract_trpc_options(parsed_file: &ParsedFile) -> (r: Option<TrpcModuleOptions>)
    ensures
        match r {
            Some(o) => spec_module_options_from(parsed_file.module.body@, 0) == Some(
                spec_options_view(o),
            ),
            None => spec_module_options_from(parsed_file.module.body@, 0) is None,
        },
{
    ModuleParser::new().extract_trpc_options(parsed_file)
}


/// Whether an import statement's named bindings include a name.
pub open spec fn spec_named_binding_in(
    specs: Seq<ImportSpecifier>,
    name: Seq<char>,
) -> bool {
    exists|k: int|
        0 <= k < specs.len() && (match #[trigger] specs[k] {
            ImportSpecifier::Named(n) => n.local@ == name,
            _ => false,
        })
}

/// The context class's file, searching the items from `i` on: the first
/// relative import whose named bindings include the class name decides,
/// and yields whatever its source resolves to.
pub open spec fn spec_context_file_from(
    project: Project,
    body: Seq<ModuleItem>,
    dir: Seq<char>,
    name: Seq<char>,
    i: int,
) -> Option<Seq<char>>
    decreases body.len() - i,
{
    if i < 0 || i >= body.len() {
        None
    } else {
        match body[i] {
            ModuleItem::Import(d) => if crate::text::starts_with_seq(d.src@, "."@)
                && spec_named_binding_in(d.specifiers@, name) {
                crate::imports::module_resolution::spec_resolve_module_path(project, dir, d.src@)
            } else {
                spec_context_file_from(project, body, dir, name, i + 1)
            },
            _ => spec_context_file_from(project, body, dir, name, i + 1),
        }
    }
}

/// The context class's file within a file of the run.
pub open spec fn spec_context_file(
    project: Project,
    file: ParsedFile,
    name: Seq<char>,
) -> Option<Seq<char>> {
    match crate::paths::spec_parent_dir(file.file_path@) {
        Some(d) => spec_context_file_from(project, file.module.body@, d, name, 0),
        None => None,
    }
}

/// Resolves the file a context class is imported from: the first relative
/// import whose named bindings include the class name, resolved against the
/// importing file's directory. The result is a file of the run.
#[verifier::loop_isolation(false)]
pub fn resolve_context_file(project: &Project, parsed_file: &ParsedFile, context_class_name: &str) -> (r:
    Option<String>)
    ensures
        match r {
            Some(p) => spec_context_file(*project, *parsed_file, context_class_name@) == Some(p@)
                && project.spec_has(p@),
            None => spec_context_file(*project, *parsed_file, context_class_name@) is None,
        },
{
    let source_directory = match parent_dir(parsed_file.file_path.as_str()) {
        Some(d) => d,
        None => {
            return None;
        },
    };
    let body = &parsed_file.module.body;
    let mut i: usize = 0;
    while i < body.len()
        invariant
            i <= body@.len(),
            spec_context_file_from(
                *project,
                body@,
                source_directory@,
                context_class_name@,
                0,
            ) == spec_context_file_from(
                *project,
                body@,
                source_directory@,
                context_class_name@,
                i as int,
            ),
        decreases body@.len() - i,
    {
        match &body[i] {
            ModuleItem::Import(import_declaration) => {
                let starts_with_dot = crate::text::str_starts_with(
                    import_declaration.src.as_str(),
                    ".",
                );
                if starts_with_dot {
                    let mut has_binding = false;
                    let specs = &import_declaration.specifiers;
                    let mut k: usize = 0;
                    while k < specs.len()
                        invariant
                            k <= specs@.len(),
                            has_binding == (exists|q: int|
                                0 <= q < k && (match #[trigger] specs@[q] {
                                    ImportSpecifier::Named(n) => n.local@
                                        == context_class_name@,
                                    _ => false,
                                })),
                        decreases specs@.len() - k,
                    {
                        match &specs[k] {
                            ImportSpecifier::Named(named) => {
                                if str_eq(named.local.as_str(), context_class_name) {
                                    has_binding = true;
                                    proof {
                                        assert(match specs@[k as int] {
                                            ImportSpecifier::Named(n) => n.local@
                                                == context_class_name@,
                                            _ => false,
                                        });
                                    }
                                }
                            },
                            _ => {},
                        }
                        k += 1;
                    }
                    proof {
                        assert(has_binding == spec_named_binding_in(
                            specs@,
                            context_class_name@,
                        ));
                    }
                    if has_binding {
                        match resolve_module_path(
                            project,
                            source_directory.as_str(),
                            import_declaration.src.as_str(),
                        ) {
                            Some(p) => {
                                return Some(p);
                            },
                            None => {
                                return None;
                            },
                        }
                    }
                }
            },
            _ => {},
        }
        i += 1;
    }
    None
}

/// The transformer import a binding resolves to, if an import statement of
/// the file binds the identifier: the statement's source, the identifier,
/// and whether it was bound as the default export.
pub open spec fn spec_transformer_of_item(item: ModuleItem, identifier: Seq<char>) -> Option<
    (Seq<char>, bool),
> {
    match item {
        ModuleItem::Import(decl) => spec_transformer_of_specs(decl.src@, decl.specifiers@, 0, identifier),
        _ => None,
    }
}

/// The first specifier from `i` on that binds the identifier, with whether
/// it is a default binding.
pub open spec fn spec_transformer_of_specs(
    src: Seq<char>,
    specs: Seq<ImportSpecifier>,
    i: int,
    identifier: Seq<char>,
) -> Option<(Seq<char>, bool)>
    decreases specs.len() - i,
{
    if i < 0 || i >= specs.len() {
        None
    } else {
        match specs[i] {
            ImportSpecifier::Default(local) => if local@ == identifier {
                Some((src, true))
            } else {
                spec_transformer_of_specs(src, specs, i + 1, identifier)
            },
            ImportSpecifier::Named(named) => if named.local@ == identifier {
                Some((src, false))
            } else {
                spec_transformer_of_specs(src, specs, i + 1, identifier)
            },
            _ => spec_transformer_of_specs(src, specs, i + 1, identifier),
        }
    }
}

/// Resolves a transformer identifier to the import statement that binds it:
/// the first import whose default or named binding uses the identifier as
/// its local name yields the package and the binding kind.
#[verifier::loop_isolation(false)]
pub fn resolve_transformer_import(parsed_file: &ParsedFile, transformer_identifier: &str) -> (r:
    Option<TransformerInfo>)
    ensures
        match r {
            Some(info) => info.import_name@ == transformer_identifier@ && exists|i: int|
                0 <= i < parsed_file.module.body@.len() && spec_transformer_of_item(
                    #[trigger] parsed_file.module.body@[i],
                    transformer_identifier@,
                ) == Some((info.package_name@, info.is_default_import)),
            None => forall|i: int|
                0 <= i < parsed_file.module.body@.len() ==> spec_transformer_of_item(
                    #[trigger] parsed_file.module.body@[i],
                    transformer_identifier@,
                ) is None,
        },
{
    let body = &parsed_file.module.body;
    let mut i: usize = 0;
    while i < body.len()
        invariant
            i <= body@.len(),
            forall|j: int|
                0 <= j < i ==> spec_transformer_of_item(
                    #[trigger] body@[j],
                    transformer_identifier@,
                ) is None,
        decreases body@.len() - i,
    {
        match &body[i] {
            ModuleItem::Import(import_declaration) => {
                let specs = &import_declaration.specifiers;
                let mut k: usize = 0;
                while k < specs.len()
                    invariant
                        k <= specs@.len(),
                        spec_transformer_of_specs(
                            import_declaration.src@,
                            specs@,
                            0,
                            transformer_identifier@,
                        ) == spec_transformer_of_specs(
                            import_declaration.src@,
                            specs@,
                            k as int,
                            transformer_identifier@,
                        ),
                    decreases specs@.len() - k,
                {
                    match &specs[k] {
                        ImportSpecifier::Default(local) => {
                            if str_eq(local.as_str(), transformer_identifier) {
                                return Some(
                                    TransformerInfo {
                                        package_name: str_to_string(
                                            import_declaration.src.as_str(),
                                        ),
                                        import_name: str_to_string(transformer_identifier),
                                        is_default_import: true,
                                    },
                                );
                            }
                        },
                        ImportSpecifier::Named(named) => {
                            if str_eq(named.local.as_str(), transformer_identifier) {
                                return Some(
                                    TransformerInfo {
                                        package_name: str_to_string(
                                            import_declaration.src.as_str(),
                                        ),
                                        import_name: str_to_string(transformer_identifier),
                                        is_default_import: false,
                                    },
                                );
                            }
                        },
                        _ => {},
                    }
                    k += 1;
                }
            },
            _ => {},
        }
        i += 1;
    }
    None
}

} // verus!
