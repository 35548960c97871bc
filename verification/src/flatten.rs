//! The schema flattener.
//!
//! Given a schema expression and the file it occurs in, the flattener
//! recursively replaces every resolvable identifier inside it with the
//! flattened source of that identifier's initializer, producing one
//! expression with no remaining cross-file references. The validator-library
//! namespace `z`, importable identifiers, names already being resolved
//! higher up (cycle guard) and names without an initializer are left
//! unchanged. Recursion depth is bounded; past the bound the text is
//! returned as it stands, so every call terminates.

use vstd::prelude::*;

use crate::ast::{
    text_of, Callee, Expr, ExprOrSpread, ModuleItem, Prop, PropName, PropOrSpread,
    VarDeclarator,
};
use crate::error::GeneratorError;
use crate::imports::resolver::{ImportResolver, ImportsMap};
use crate::project::{ParsedFile, Project};
use crate::text::{
    concat2, concat3, lemma_in_names_views, lemma_replace_identity, lemma_replace_whole,
    replace_all, spec_in_names, spec_view_in, starts_with_seq, str_eq, str_len, str_starts_with,
    str_to_string, views_of,
};

verus! {

/// The depth bound that flattening runs under when none is chosen.
pub const DEFAULT_MAX_SCHEMA_FLATTEN_DEPTH: usize = 20;

/// The initializer of the first declarator, from `j` on, that binds `name`
/// and has one.
pub open spec fn spec_decl_initializer(
    decls: Seq<VarDeclarator>,
    name: Seq<char>,
    j: int,
) -> Option<Expr>
    decreases decls.len() - j,
{
    if j < 0 || j >= decls.len() {
        None
    } else {
        match decls[j].name {
            Some(n) => if n@ == name && decls[j].init is Some {
                decls[j].init
            } else {
                spec_decl_initializer(decls, name, j + 1)
            },
            None => spec_decl_initializer(decls, name, j + 1),
        }
    }
}

/// The initializer a single top-level item gives `name`, if any.
pub open spec fn spec_item_initializer(item: ModuleItem, name: Seq<char>) -> Option<Expr> {
    match item {
        ModuleItem::Var { decl, exported } => spec_decl_initializer(decl.decls@, name, 0),
        _ => None,
    }
}

/// The initializer of the first top-level variable binding of `name`, from
/// item `i` on.
pub open spec fn spec_initializer_from(body: Seq<ModuleItem>, name: Seq<char>, i: int) -> Option<
    Expr,
>
    decreases body.len() - i,
{
    if i < 0 || i >= body.len() {
        None
    } else {
        match spec_item_initializer(body[i], name) {
            Some(e) => Some(e),
            None => spec_initializer_from(body, name, i + 1),
        }
    }
}

/// The initializer of the first top-level variable binding of `name` in the
/// file, if any.
pub open spec fn spec_local_initializer(file: ParsedFile, name: Seq<char>) -> Option<Expr> {
    spec_initializer_from(file.module.body@, name, 0)
}

/// An identifier that the flattener leaves unchanged against the given
/// imports map: the validator namespace, an importable name, or a name with
/// no local initializer whose import bindings all lead to files of the run
/// that hold no initializer for it either.
pub open spec fn spec_ident_inert(
    project: Project,
    file: ParsedFile,
    imports: ImportsMap,
    importable: Seq<Seq<char>>,
    name: Seq<char>,
) -> bool {
    ||| name == "z"@
    ||| spec_view_in(importable, name)
    ||| (spec_local_initializer(file, name) is None && (forall|i: int|
        0 <= i < imports.entries@.len() && (#[trigger] imports.entries@[i]).0@ == name
            ==> spec_entry_inert(project, imports.entries@[i].1.source_file@, name)))
}

/// The file an import binding points at is part of the run and holds no
/// initializer for the name.
pub open spec fn spec_entry_inert(project: Project, entry_file: Seq<char>, name: Seq<char>) -> bool {
    project.spec_has(entry_file) && spec_local_initializer(
        project.files@[project.spec_index_of(entry_file)],
        name,
    ) is None
}

/// A bare reference to a local variable whose initializer is already fully
/// flattened for the whole run: flattening such a reference yields exactly
/// the initializer's text, a self-contained expression.
pub open spec fn spec_bare_ref_to_flattened(
    project: Project,
    file: ParsedFile,
    importable: Seq<Seq<char>>,
    name: Seq<char>,
) -> bool {
    name.len() >= 1 && name != "z"@ && !spec_view_in(importable, name) && (
    match spec_local_initializer(file, name) {
        Some(init) => spec_expr_fully_flattened(project, file, importable, init),
        None => false,
    })
}

/// A fully flattened expression against a given imports map: no identifier
/// in it can cause a substitution, so flattening returns it unchanged.
pub open spec fn spec_expr_inert(
    project: Project,
    file: ParsedFile,
    imports: ImportsMap,
    importable: Seq<Seq<char>>,
    e: Expr,
) -> bool
    decreases e,
{
    match e {
        Expr::Ident(name) => spec_ident_inert(project, file, imports, importable, name@),
        Expr::Object(o) => spec_props_inert(project, file, imports, importable, o.props@),
        Expr::Array(a) => spec_elems_inert(project, file, imports, importable, a.elems@),
        Expr::Call(c) => (match c.callee {
            Callee::Expr(callee_expr) => match *callee_expr {
                Expr::Member(m) => starts_with_seq(text_of(*m.obj), "z."@) || starts_with_seq(
                    text_of(*m.obj),
                    "z["@,
                ) || spec_expr_inert(project, file, imports, importable, *m.obj),
                _ => true,
            },
            Callee::Other => true,
        }) && spec_args_inert(project, file, imports, importable, c.args@),
        Expr::Member(m) => spec_expr_inert(project, file, imports, importable, *m.obj),
        Expr::Paren(p) => spec_expr_inert(project, file, imports, importable, *p.expr),
        _ => true,
    }
}

/// Every key-value property of an object literal is inert.
pub open spec fn spec_props_inert(
    project: Project,
    file: ParsedFile,
    imports: ImportsMap,
    importable: Seq<Seq<char>>,
    props: Seq<PropOrSpread>,
) -> bool
    decreases props,
{
    if props.len() == 0 {
        true
    } else {
        (match props[0] {
            PropOrSpread::Prop(Prop::KeyValue(kv)) => spec_expr_inert(
                project,
                file,
                imports,
                importable,
                kv.value,
            ),
            _ => true,
        }) && spec_props_inert(project, file, imports, importable, props.skip(1))
    }
}

/// Every present element of an array literal is inert.
pub open spec fn spec_elems_inert(
    project: Project,
    file: ParsedFile,
    imports: ImportsMap,
    importable: Seq<Seq<char>>,
    elems: Seq<Option<ExprOrSpread>>,
) -> bool
    decreases elems,
{
    if elems.len() == 0 {
        true
    } else {
        (match elems[0] {
            Some(element) => spec_expr_inert(project, file, imports, importable, element.expr),
            None => true,
        }) && spec_elems_inert(project, file, imports, importable, elems.skip(1))
    }
}

/// Every call argument is inert; an array-literal argument is inert
/// element-wise.
pub open spec fn spec_args_inert(
    project: Project,
    file: ParsedFile,
    imports: ImportsMap,
    importable: Seq<Seq<char>>,
    args: Seq<ExprOrSpread>,
) -> bool
    decreases args,
{
    if args.len() == 0 {
        true
    } else {
        (match args[0].expr {
            Expr::Array(a) => spec_elems_inert(project, file, imports, importable, a.elems@),
            _ => spec_expr_inert(project, file, imports, importable, args[0].expr),
        }) && spec_args_inert(project, file, imports, importable, args.skip(1))
    }
}

proof fn lemma_props_inert_index(
    project: Project,
    file: ParsedFile,
    imports: ImportsMap,
    importable: Seq<Seq<char>>,
    props: Seq<PropOrSpread>,
    i: int,
)
    requires
        spec_props_inert(project, file, imports, importable, props),
        0 <= i < props.len(),
    ensures
        match props[i] {
            PropOrSpread::Prop(Prop::KeyValue(kv)) => spec_expr_inert(
                project,
                file,
                imports,
                importable,
                kv.value,
            ),
            _ => true,
        },
    decreases i,
{
    if i > 0 {
        lemma_props_inert_index(project, file, imports, importable, props.skip(1), i - 1);
    }
}

proof fn lemma_elems_inert_index(
    project: Project,
    file: ParsedFile,
    imports: ImportsMap,
    importable: Seq<Seq<char>>,
    elems: Seq<Option<ExprOrSpread>>,
    i: int,
)
    requires
        spec_elems_inert(project, file, imports, importable, elems),
        0 <= i < elems.len(),
    ensures
        match elems[i] {
            Some(element) => spec_expr_inert(project, file, imports, importable, element.expr),
            None => true,
        },
    decreases i,
{
    if i > 0 {
        lemma_elems_inert_index(project, file, imports, importable, elems.skip(1), i - 1);
    }
}

proof fn lemma_args_inert_index(
    project: Project,
    file: ParsedFile,
    imports: ImportsMap,
    importable: Seq<Seq<char>>,
    args: Seq<ExprOrSpread>,
    i: int,
)
    requires
        spec_args_inert(project, file, imports, importable, args),
        0 <= i < args.len(),
    ensures
        match args[i].expr {
            Expr::Array(a) => spec_elems_inert(project, file, imports, importable, a.elems@),
            _ => spec_expr_inert(project, file, imports, importable, args[i].expr),
        },
    decreases i,
{
    if i > 0 {
        lemma_args_inert_index(project, file, imports, importable, args.skip(1), i - 1);
    }
}

/// Whether one of the names equals `name`.
pub fn name_in(names: &Vec<String>, name: &str) -> (r: bool)
    ensures
        r == spec_in_names(names@, name@),
{
    let mut i: usize = 0;
    while i < names.len()
        invariant
            i <= names@.len(),
            forall|j: int| 0 <= j < i ==> (#[trigger] names@[j])@ != name@,
        decreases names@.len() - i,
    {
        if str_eq(names[i].as_str(), name) {
            return true;
        }
        i += 1;
    }
    false
}

/// Finds the initializer of the first top-level variable binding of `name`
/// in the file, if any.
#[verifier::loop_isolation(false)]
pub fn find_local_initializer<'a>(file: &'a ParsedFile, name: &str) -> (r: Option<&'a Expr>)
    ensures
        match r {
            Some(e) => spec_local_initializer(*file, name@) == Some(*e),
            None => spec_local_initializer(*file, name@) is None,
        },
{
    let body = &file.module.body;
    let mut i: usize = 0;
    while i < body.len()
        invariant
            i <= body@.len(),
            spec_local_initializer(*file, name@) == spec_initializer_from(
                body@,
                name@,
                i as int,
            ),
        decreases body@.len() - i,
    {
        match &body[i] {
            ModuleItem::Var { decl, exported: _ } => {
                let decls = &decl.decls;
                let mut j: usize = 0;
                while j < decls.len()
                    invariant
                        j <= decls@.len(),
                        spec_item_initializer(body@[i as int], name@) == spec_decl_initializer(
                            decls@,
                            name@,
                            j as int,
                        ),
                    decreases decls@.len() - j,
                {
                    let declarator = &decls[j];
                    let name_matches = match &declarator.name {
                        Some(n) => str_eq(n.as_str(), name),
                        None => false,
                    };
                    if name_matches {
                        match &declarator.init {
                            Some(e) => {
                                return Some(e);
                            },
                            None => {},
                        }
                    }
                    j += 1;
                }
            },
            _ => {},
        }
        i += 1;
    }
    None
}

/// Flattens schema expressions by substituting resolvable identifiers with
/// the flattened text of their initializers.
#[derive(Debug, Clone, PartialEq, Eq)]
pub struct ZodFlattener {
    pub base_directory: String,
    pub max_depth: usize,
    pub resolving: Vec<String>,
    pub importable_identifiers: Vec<String>,
}

impl ZodFlattener {
    /// A flattener over the given base directory, with the default depth
    /// bound, no importable identifiers and nothing being resolved.
    pub fn new(base_directory: &str) -> (r: ZodFlattener)
        ensures
            r.base_directory@ == base_directory@,
            r.max_depth == DEFAULT_MAX_SCHEMA_FLATTEN_DEPTH,
            r.resolving@.len() == 0,
            r.importable_identifiers@.len() == 0,
    {
        ZodFlattener {
            base_directory: str_to_string(base_directory),
            max_depth: DEFAULT_MAX_SCHEMA_FLATTEN_DEPTH,
            resolving: Vec::new(),
            importable_identifiers: Vec::new(),
        }
    }

    /// The same flattener with another depth bound.
    pub fn with_max_depth(self, max_depth: usize) -> (r: ZodFlattener)
        ensures
            r == (ZodFlattener { max_depth, ..self }),
    {
        ZodFlattener { max_depth, ..self }
    }

    /// The same flattener treating the given identifiers as importable:
    /// they are left in place for the generator to import.
    pub fn with_importable_identifiers(self, identifiers: Vec<String>) -> (r: ZodFlattener)
        ensures
            r == (ZodFlattener { importable_identifiers: identifiers, ..self }),
    {
        ZodFlattener { importable_identifiers: identifiers, ..self }
    }

    /// Flattens one schema expression, given with its source text, against
    /// the file it occurs in. Never fails: an unresolvable reference is
    /// left as literal text. A fully flattened expression comes back
    /// unchanged, and a bare identifier whose initializer is the identifier
    /// itself comes back unchanged rather than looping.
    pub fn flatten_schema(
        &mut self,
        project: &Project,
        schema_expr: &Expr,
        schema_text: &str,
        source_file: &ParsedFile,
    ) -> (r: Result<String, GeneratorError>)
        ensures
            r matches Ok(out) ==> (spec_expr_fully_flattened(
                *project,
                *source_file,
                views_of(old(self).importable_identifiers@),
                *schema_expr,
            ) ==> out@ == schema_text@),
            r matches Ok(out2) ==> (spec_direct_self_reference(
                *source_file,
                views_of(old(self).importable_identifiers@),
                *schema_expr,
            ) ==> out2@ == schema_text@),
            r matches Ok(out3) ==> (match *schema_expr {
                Expr::Ident(name) => (old(self).max_depth >= 1 && schema_text@ == name@
                    && spec_bare_ref_to_flattened(
                    *project,
                    *source_file,
                    views_of(old(self).importable_identifiers@),
                    name@,
                )) ==> out3@ == text_of(spec_local_initializer(*source_file, name@).unwrap()),
                _ => true,
            }),
            r is Ok,
            final(self).max_depth == old(self).max_depth,
            final(self).base_directory == old(self).base_directory,
            final(self).importable_identifiers == old(self).importable_identifiers,
    {
        let resolver = ImportResolver::new();
        let imports_map = resolver.build_imports_map(project, source_file, self.base_directory.as_str());
        self.resolving = Vec::new();
        let schema = str_to_string(schema_text);
        proof {
            if spec_expr_fully_flattened(
                *project,
                *source_file,
                views_of(self.importable_identifiers@),
                *schema_expr,
            ) {
                lemma_fully_flattened_inert(
                    *project,
                    *source_file,
                    imports_map,
                    views_of(self.importable_identifiers@),
                    *schema_expr,
                );
            }
        }
        self.flatten_expression(project, schema_expr, source_file, &imports_map, schema, 0)
    }

    /// Flattens an expression by shape, substituting in `schema` wherever a
    /// subexpression's flattened text differs from its source text.
    #[verifier::loop_isolation(false)]
    #[verifier::rlimit(100)]
    fn flatten_expression(
        &mut self,
        project: &Project,
        expression: &Expr,
        source_file: &ParsedFile,
        imports_map: &ImportsMap,
        schema: String,
        depth: usize,
    ) -> (r: Result<String, GeneratorError>)
        ensures
            final(self).max_depth == old(self).max_depth,
            final(self).base_directory == old(self).base_directory,
            final(self).importable_identifiers == old(self).importable_identifiers,
            final(self).resolving@ == old(self).resolving@,
            imports_map.sound(*project) ==> r is Ok,
            r matches Ok(out) ==> (spec_expr_inert(
                *project,
                *source_file,
                *imports_map,
                views_of(old(self).importable_identifiers@),
                *expression,
            ) ==> out@ == schema@),
            depth >= old(self).max_depth ==> (r matches Ok(out) && out@ == schema@),
            r matches Ok(out) ==> (match *expression {
                Expr::Ident(name) => spec_in_names(old(self).resolving@, name@) ==> out@
                    == schema@,
                _ => true,
            }),
            r matches Ok(out) ==> (spec_direct_self_reference_at(
                *source_file,
                views_of(old(self).importable_identifiers@),
                old(self).resolving@,
                *expression,
            ) ==> out@ == schema@),
            r matches Ok(out) ==> (match *expression {
                Expr::Ident(name) => (depth < old(self).max_depth && imports_map.sound(*project)
                    && old(self).resolving@.len() == 0 && schema@ == name@
                    && spec_bare_ref_to_flattened(
                    *project,
                    *source_file,
                    views_of(old(self).importable_identifiers@),
                    name@,
                )) ==> out@ == text_of(spec_local_initializer(*source_file, name@).unwrap()),
                _ => true,
            }),
        decreases old(self).max_depth - depth, 2int,
    {
        if depth >= self.max_depth {
            return Ok(schema);
        }

        match expression {
            Expr::Ident(name) => {
                self.flatten_identifier(project, name, source_file, imports_map, schema, depth)
            },
            Expr::Object(object_literal) => {
                let mut working = schema;
                let ghost orig = working@;
                let props = &object_literal.props;
                let mut i: usize = 0;
                while i < props.len()
                    invariant
                        i <= props@.len(),
                        self.max_depth == old(self).max_depth,
                        self.base_directory == old(self).base_directory,
                        self.importable_identifiers == old(self).importable_identifiers,
                        self.resolving@ == old(self).resolving@,
                        spec_expr_inert(
                            *project,
                            *source_file,
                            *imports_map,
                            views_of(old(self).importable_identifiers@),
                            *expression,
                        ) ==> working@ == orig,
                    decreases props@.len() - i,
                {
                    match &props[i] {
                        PropOrSpread::Prop(Prop::KeyValue(kv)) => {
                            proof {
                                if spec_expr_inert(
                                    *project,
                                    *source_file,
                                    *imports_map,
                                    views_of(old(self).importable_identifiers@),
                                    *expression,
                                ) {
                                    lemma_props_inert_index(
                                        *project,
                                        *source_file,
                                        *imports_map,
                                        views_of(old(self).importable_identifiers@),
                                        props@,
                                        i as int,
                                    );
                                }
                            }
                            let property_text = &kv.text;
                            let initializer_text = kv.value.text();
                            let sub = self.flatten_expression(
                                project,
                                &kv.value,
                                source_file,
                                imports_map,
                                str_to_string(initializer_text.as_str()),
                                depth + 1,
                            );
                            let flattened = match sub {
                                Ok(f) => f,
                                Err(e) => {
                                    return Err(e);
                                },
                            };
                            if !str_eq(flattened.as_str(), initializer_text.as_str()) {
                                let key_text = property_key_text(&kv.key);
                                let mut new_property_text = concat2(key_text.as_str(), ": ");
                                new_property_text.append(flattened.as_str());
                                if str_len(property_text.as_str()) > 0 {
                                    working = replace_all(
                                        working.as_str(),
                                        property_text.as_str(),
                                        new_property_text.as_str(),
                                    );
                                }
                            }
                        },
                        _ => {},
                    }
                    i += 1;
                }
                Ok(working)
            },
            Expr::Array(array_literal) => {
                self.flatten_array(
                    project,
                    array_literal,
                    source_file,
                    imports_map,
                    schema,
                    depth,
                )
            },
            Expr::Call(call_expression) => {
                let mut working = schema;
                let ghost orig = working@;
                let ghost inert_here = spec_expr_inert(
                    *project,
                    *source_file,
                    *imports_map,
                    views_of(old(self).importable_identifiers@),
                    *expression,
                );
                match &call_expression.callee {
                    Callee::Expr(callee_expression) => {
                        match &**callee_expression {
                            Expr::Member(member) => {
                                let member_text = member.obj.text();
                                let is_zod_prefix = str_starts_with(member_text.as_str(), "z.")
                                    || str_starts_with(member_text.as_str(), "z[");
                                if !is_zod_prefix {
                                    let sub = self.flatten_expression(
                                        project,
                                        &member.obj,
                                        source_file,
                                        imports_map,
                                        str_to_string(member_text.as_str()),
                                        depth + 1,
                                    );
                                    let base_flattened = match sub {
                                        Ok(f) => f,
                                        Err(e) => {
                                            return Err(e);
                                        },
                                    };
                                    if !str_eq(base_flattened.as_str(), member_text.as_str()) {
                                        if str_len(member_text.as_str()) > 0 {
                                            working = replace_all(
                                                working.as_str(),
                                                member_text.as_str(),
                                                base_flattened.as_str(),
                                            );
                                        }
                                    }
                                }
                            },
                            _ => {},
                        }
                    },
                    Callee::Other => {},
                }

                let args = &call_expression.args;
                let mut i: usize = 0;
                while i < args.len()
                    invariant
                        i <= args@.len(),
                        self.max_depth == old(self).max_depth,
                        self.base_directory == old(self).base_directory,
                        self.importable_identifiers == old(self).importable_identifiers,
                        self.resolving@ == old(self).resolving@,
                        inert_here ==> working@ == orig,
                    decreases args@.len() - i,
                {
                    proof {
                        if inert_here {
                            lemma_args_inert_index(
                                *project,
                                *source_file,
                                *imports_map,
                                views_of(old(self).importable_identifiers@),
                                args@,
                                i as int,
                            );
                        }
                    }
                    let argument = &args[i];
                    match &argument.expr {
                        Expr::Array(array_literal) => {
                            let sub = self.flatten_array(
                                project,
                                array_literal,
                                source_file,
                                imports_map,
                                working,
                                depth + 1,
                            );
                            working = match sub {
                                Ok(f) => f,
                                Err(e) => {
                                    return Err(e);
                                },
                            };
                        },
                        _ => {
                            let argument_text = argument.expr.text();
                            let sub = self.flatten_expression(
                                project,
                                &argument.expr,
                                source_file,
                                imports_map,
                                str_to_string(argument_text.as_str()),
                                depth + 1,
                            );
                            let flattened = match sub {
                                Ok(f) => f,
                                Err(e) => {
                                    return Err(e);
                                },
                            };
                            if !str_eq(flattened.as_str(), argument_text.as_str()) {
                                if str_len(argument_text.as_str()) > 0 {
                                    working = replace_all(
                                        working.as_str(),
                                        argument_text.as_str(),
                                        flattened.as_str(),
                                    );
                                }
                            }
                        },
                    }
                    i += 1;
                }
                Ok(working)
            },
            Expr::Member(member_expression) => {
                let object_text = member_expression.obj.text();
                let sub = self.flatten_expression(
                    project,
                    &member_expression.obj,
                    source_file,
                    imports_map,
                    str_to_string(object_text.as_str()),
                    depth + 1,
                );
                let flattened = match sub {
                    Ok(f) => f,
                    Err(e) => {
                        return Err(e);
                    },
                };
                if !str_eq(flattened.as_str(), object_text.as_str()) && str_len(
                    object_text.as_str(),
                ) > 0 {
                    Ok(replace_all(schema.as_str(), object_text.as_str(), flattened.as_str()))
                } else {
                    Ok(schema)
                }
            },
            Expr::Paren(parenthesized) => {
                self.flatten_expression(
                    project,
                    &parenthesized.expr,
                    source_file,
                    imports_map,
                    schema,
                    depth + 1,
                )
            },
            _ => Ok(schema),
        }
    }

    /// Flattens every present element of an array literal in place.
    #[verifier::loop_isolation(false)]
    fn flatten_array(
        &mut self,
        project: &Project,
        array_literal: &crate::ast::ArrayLit,
        source_file: &ParsedFile,
        imports_map: &ImportsMap,
        schema: String,
        depth: usize,
    ) -> (r: Result<String, GeneratorError>)
        ensures
            final(self).max_depth == old(self).max_depth,
            final(self).base_directory == old(self).base_directory,
            final(self).importable_identifiers == old(self).importable_identifiers,
            final(self).resolving@ == old(self).resolving@,
            imports_map.sound(*project) ==> r is Ok,
            r matches Ok(out) ==> (spec_elems_inert(
                *project,
                *source_file,
                *imports_map,
                views_of(old(self).importable_identifiers@),
                array_literal.elems@,
            ) ==> out@ == schema@),
        decreases old(self).max_depth - depth, 1int,
    {
        if depth >= self.max_depth {
            return Ok(schema);
        }
        let mut working = schema;
        let ghost orig = working@;
        let elems = &array_literal.elems;
        let mut i: usize = 0;
        while i < elems.len()
            invariant
                i <= elems@.len(),
                self.max_depth == old(self).max_depth,
                self.base_directory == old(self).base_directory,
                self.importable_identifiers == old(self).importable_identifiers,
                self.resolving@ == old(self).resolving@,
                spec_elems_inert(
                    *project,
                    *source_file,
                    *imports_map,
                    views_of(old(self).importable_identifiers@),
                    elems@,
                ) ==> working@ == orig,
            decreases elems@.len() - i,
        {
            proof {
                if spec_elems_inert(
                    *project,
                    *source_file,
                    *imports_map,
                    views_of(old(self).importable_identifiers@),
                    elems@,
                ) {
                    lemma_elems_inert_index(
                        *project,
                        *source_file,
                        *imports_map,
                        views_of(old(self).importable_identifiers@),
                        elems@,
                        i as int,
                    );
                }
            }
            match &elems[i] {
                Some(element) => {
                    let element_text = element.expr.text();
                    let sub = self.flatten_expression(
                        project,
                        &element.expr,
                        source_file,
                        imports_map,
                        str_to_string(element_text.as_str()),
                        depth + 1,
                    );
                    let flattened = match sub {
                        Ok(f) => f,
                        Err(e) => {
                            return Err(e);
                        },
                    };
                    if !str_eq(flattened.as_str(), element_text.as_str()) {
                        if str_len(element_text.as_str()) > 0 {
                            working = replace_all(
                                working.as_str(),
                                element_text.as_str(),
                                flattened.as_str(),
                            );
                        }
                    }
                },
                None => {},
            }
            i += 1;
        }
        Ok(working)
    }

    /// Flattens a bare identifier: the cycle guard, the validator namespace
    /// and importable names are left unchanged; otherwise the name's
    /// initializer is searched locally, then through the file's imports,
    /// and on success its flattened text replaces every occurrence of the
    /// name in the working schema.
    #[verifier::loop_isolation(false)]
    #[verifier::rlimit(60)]
    fn flatten_identifier(
        &mut self,
        project: &Project,
        name: &String,
        source_file: &ParsedFile,
        imports_map: &ImportsMap,
        schema: String,
        depth: usize,
    ) -> (r: Result<String, GeneratorError>)
        requires
            depth < old(self).max_depth,
        ensures
            final(self).max_depth == old(self).max_depth,
            final(self).base_directory == old(self).base_directory,
            final(self).importable_identifiers == old(self).importable_identifiers,
            final(self).resolving@ == old(self).resolving@,
            imports_map.sound(*project) ==> r is Ok,
            r matches Ok(out) ==> (spec_ident_inert(
                *project,
                *source_file,
                *imports_map,
                views_of(old(self).importable_identifiers@),
                name@,
            ) ==> out@ == schema@),
            r matches Ok(out) ==> (spec_in_names(old(self).resolving@, name@) ==> out@
                == schema@),
            r matches Ok(out) ==> ((name@.len() >= 1 && !spec_in_names(
                old(self).resolving@,
                name@,
            ) && (match spec_local_initializer(*source_file, name@) {
                Some(init) => init matches Expr::Ident(n2) && n2@ == name@,
                None => false,
            })) ==> out@ == schema@),
            r matches Ok(out) ==> ((imports_map.sound(*project) && old(self).resolving@.len() == 0
                && schema@ == name@ && spec_bare_ref_to_flattened(
                *project,
                *source_file,
                views_of(old(self).importable_identifiers@),
                name@,
            )) ==> out@ == text_of(spec_local_initializer(*source_file, name@).unwrap())),
        decreases old(self).max_depth - depth, 0int,
    {
        proof {
            lemma_in_names_views(self.importable_identifiers@, name@);
        }
        let name_len = str_len(name.as_str());
        if name_len == 0 {
            return Ok(schema);
        }
        if name_in(&self.resolving, name.as_str()) {
            return Ok(schema);
        }
        if str_eq(name.as_str(), "z") {
            return Ok(schema);
        }
        if name_in(&self.importable_identifiers, name.as_str()) {
            return Ok(schema);
        }

        match find_local_initializer(source_file, name.as_str()) {
            Some(initializer) => {
                let initializer_text = initializer.text();
                self.resolving.push(str_to_string(name.as_str()));
                let sub = self.flatten_expression(
                    project,
                    initializer,
                    source_file,
                    imports_map,
                    str_to_string(initializer_text.as_str()),
                    depth + 1,
                );
                let _ = self.resolving.pop();
                proof {
                    assert(self.resolving@ =~= old(self).resolving@);
                }
                let flattened = match sub {
                    Ok(f) => f,
                    Err(e) => {
                        return Err(e);
                    },
                };
                let out = replace_all(schema.as_str(), name.as_str(), flattened.as_str());
                proof {
                    let ghost init_spec = spec_local_initializer(*source_file, name@);
                    if init_spec matches Some(init) && init matches Expr::Ident(n2) && n2@
                        == name@ {
                        assert(flattened@ == name@);
                        lemma_replace_identity(schema@, name@);
                    }
                    if imports_map.sound(*project) && old(self).resolving@.len() == 0 && schema@
                        == name@ && spec_bare_ref_to_flattened(
                        *project,
                        *source_file,
                        views_of(old(self).importable_identifiers@),
                        name@,
                    ) {
                        lemma_fully_flattened_inert(
                            *project,
                            *source_file,
                            *imports_map,
                            views_of(old(self).importable_identifiers@),
                            *initializer,
                        );
                        assert(flattened@ == text_of(*initializer));
                        lemma_replace_whole(name@, flattened@);
                    }
                }
                Ok(out)
            },
            None => {
                let import = match imports_map.get(name.as_str()) {
                    Some(ri) => ri,
                    None => {
                        return Ok(schema);
                    },
                };
                let imported_file = match project.get(import.source_file.as_str()) {
                    Some(f) => f,
                    None => {
                        let message = concat2(
                            "the imported file is not among the run's parsed files: ",
                            import.source_file.as_str(),
                        );
                        return Err(
                            GeneratorError::SchemaFlattenFailed {
                                path: str_to_string(import.source_file.as_str()),
                                schema: String::new(),
                                message,
                            },
                        );
                    },
                };
                let resolver = ImportResolver::new();
                let imported_imports_map = resolver.build_imports_map(
                    project,
                    imported_file,
                    self.base_directory.as_str(),
                );
                match find_local_initializer(imported_file, name.as_str()) {
                    Some(initializer) => {
                        let initializer_text = initializer.text();
                        self.resolving.push(str_to_string(name.as_str()));
                        let sub = self.flatten_expression(
                            project,
                            initializer,
                            imported_file,
                            &imported_imports_map,
                            str_to_string(initializer_text.as_str()),
                            depth + 1,
                        );
                        let _ = self.resolving.pop();
                        proof {
                            assert(self.resolving@ =~= old(self).resolving@);
                        }
                        let flattened = match sub {
                            Ok(f) => f,
                            Err(e) => {
                                return Err(e);
                            },
                        };
                        Ok(replace_all(schema.as_str(), name.as_str(), flattened.as_str()))
                    },
                    None => Ok(schema),
                }
            },
        }
    }
}

/// The key of an object property rendered as text: an identifier as is, a
/// string key quoted, numeric and computed keys as their source text.
pub fn property_key_text(key: &PropName) -> (r: String) {
    match key {
        PropName::Ident(name) => str_to_string(name.as_str()),
        PropName::Str(value) => concat3("\"", value.as_str(), "\""),
        PropName::Num(value) => str_to_string(value.as_str()),
        PropName::BigInt(value) => str_to_string(value.as_str()),
        PropName::Computed(text) => str_to_string(text.as_str()),
    }
}

/// A fully flattened expression judged against the whole run: no identifier
/// in it has an initializer in its own file or anywhere else in the run,
/// unless it is the validator namespace or importable. Such an expression
/// is inert against any sound imports map.
pub open spec fn spec_expr_fully_flattened(
    project: Project,
    file: ParsedFile,
    importable: Seq<Seq<char>>,
    e: Expr,
) -> bool
    decreases e,
{
    match e {
        Expr::Ident(name) => spec_ident_fully_flattened(project, file, importable, name@),
        Expr::Object(o) => spec_props_fully_flattened(project, file, importable, o.props@),
        Expr::Array(a) => spec_elems_fully_flattened(project, file, importable, a.elems@),
        Expr::Call(c) => (match c.callee {
            Callee::Expr(callee_expr) => match *callee_expr {
                Expr::Member(m) => starts_with_seq(text_of(*m.obj), "z."@) || starts_with_seq(
                    text_of(*m.obj),
                    "z["@,
                ) || spec_expr_fully_flattened(project, file, importable, *m.obj),
                _ => true,
            },
            Callee::Other => true,
        }) && spec_args_fully_flattened(project, file, importable, c.args@),
        Expr::Member(m) => spec_expr_fully_flattened(project, file, importable, *m.obj),
        Expr::Paren(p) => spec_expr_fully_flattened(project, file, importable, *p.expr),
        _ => true,
    }
}

/// An identifier with no initializer in its file nor in any file of the
/// run, unless it is `z` or importable.
pub open spec fn spec_ident_fully_flattened(
    project: Project,
    file: ParsedFile,
    importable: Seq<Seq<char>>,
    name: Seq<char>,
) -> bool {
    ||| name == "z"@
    ||| spec_view_in(importable, name)
    ||| (spec_local_initializer(file, name) is None && (forall|j: int|
        0 <= j < project.files@.len() ==> spec_local_initializer(
            #[trigger] project.files@[j],
            name,
        ) is None))
}

/// Every key-value property is fully flattened.
pub open spec fn spec_props_fully_flattened(
    project: Project,
    file: ParsedFile,
    importable: Seq<Seq<char>>,
    props: Seq<PropOrSpread>,
) -> bool
    decreases props,
{
    if props.len() == 0 {
        true
    } else {
        (match props[0] {
            PropOrSpread::Prop(Prop::KeyValue(kv)) => spec_expr_fully_flattened(
                project,
                file,
                importable,
                kv.value,
            ),
            _ => true,
        }) && spec_props_fully_flattened(project, file, importable, props.skip(1))
    }
}

/// Every present element is fully flattened.
pub open spec fn spec_elems_fully_flattened(
    project: Project,
    file: ParsedFile,
    importable: Seq<Seq<char>>,
    elems: Seq<Option<ExprOrSpread>>,
) -> bool
    decreases elems,
{
    if elems.len() == 0 {
        true
    } else {
        (match elems[0] {
            Some(element) => spec_expr_fully_flattened(project, file, importable, element.expr),
            None => true,
        }) && spec_elems_fully_flattened(project, file, importable, elems.skip(1))
    }
}

/// Every argument is fully flattened.
pub open spec fn spec_args_fully_flattened(
    project: Project,
    file: ParsedFile,
    importable: Seq<Seq<char>>,
    args: Seq<ExprOrSpread>,
) -> bool
    decreases args,
{
    if args.len() == 0 {
        true
    } else {
        (match args[0].expr {
            Expr::Array(a) => spec_elems_fully_flattened(project, file, importable, a.elems@),
            _ => spec_expr_fully_flattened(project, file, importable, args[0].expr),
        }) && spec_args_fully_flattened(project, file, importable, args.skip(1))
    }
}

/// A bare identifier whose own initializer is the identifier itself: the
/// flattener's cycle guard leaves it unexpanded.
pub open spec fn spec_direct_self_reference(
    file: ParsedFile,
    importable: Seq<Seq<char>>,
    e: Expr,
) -> bool {
    spec_direct_self_reference_at(file, importable, Seq::empty(), e)
}

/// The same, judged under a given resolving stack.
pub open spec fn spec_direct_self_reference_at(
    file: ParsedFile,
    importable: Seq<Seq<char>>,
    resolving: Seq<String>,
    e: Expr,
) -> bool {
    match e {
        Expr::Ident(name) => name@.len() >= 1 && !spec_in_names(resolving, name@) && (
        match spec_local_initializer(file, name@) {
            Some(init) => init matches Expr::Ident(n2) && n2@ == name@,
            None => false,
        }),
        _ => false,
    }
}

/// Against a sound imports map, an expression fully flattened for the whole
/// run is inert: every binding of any of its names leads into the run, and
/// no file of the run initializes them.
proof fn lemma_fully_flattened_inert(
    project: Project,
    file: ParsedFile,
    imports: ImportsMap,
    importable: Seq<Seq<char>>,
    e: Expr,
)
    requires
        imports.sound(project),
        spec_expr_fully_flattened(project, file, importable, e),
    ensures
        spec_expr_inert(project, file, imports, importable, e),
    decreases e, 3int,
{
    match e {
        Expr::Ident(name) => {
            if name@ != "z"@ && !spec_view_in(importable, name@) {
                assert forall|i: int|
                    0 <= i < imports.entries@.len() && (#[trigger] imports.entries@[i]).0@
                        == name@ implies spec_entry_inert(
                    project,
                    imports.entries@[i].1.source_file@,
                    name@,
                ) by {
                    let ri = imports.entries@[i].1;
                    assert(crate::imports::resolver::spec_declared_in_project(project, ri));
                    let j = choose|j: int|
                        0 <= j < project.files@.len() && project.files@[j].file_path@
                            == ri.source_file@ && crate::imports::declarations::spec_find_declaration(
                            project.files@[j].module.body@,
                            ri.name@,
                        ) == Some(ri.declaration_type);
                    assert(project.spec_has(ri.source_file@));
                    let idx = project.spec_index_of(ri.source_file@);
                    assert(0 <= idx < project.files@.len()) by {
                        lemma_first_index_exists(project, ri.source_file@, j);
                    }
                    assert(spec_local_initializer(project.files@[idx], name@) is None);
                }
            }
        },
        Expr::Object(o) => {
            lemma_props_fully_flattened_inert(project, file, imports, importable, o.props@);
        },
        Expr::Array(a) => {
            lemma_elems_fully_flattened_inert(project, file, imports, importable, a.elems@);
        },
        Expr::Call(c) => {
            match c.callee {
                Callee::Expr(callee_expr) => {
                    match *callee_expr {
                        Expr::Member(m) => {
                            if !starts_with_seq(text_of(*m.obj), "z."@) && !starts_with_seq(
                                text_of(*m.obj),
                                "z["@,
                            ) {
                                lemma_fully_flattened_inert(
                                    project,
                                    file,
                                    imports,
                                    importable,
                                    *m.obj,
                                );
                            }
                        },
                        _ => {},
                    }
                },
                Callee::Other => {},
            }
            lemma_args_fully_flattened_inert(project, file, imports, importable, c.args@);
        },
        Expr::Member(m) => {
            lemma_fully_flattened_inert(project, file, imports, importable, *m.obj);
        },
        Expr::Paren(p) => {
            lemma_fully_flattened_inert(project, file, imports, importable, *p.expr);
        },
        _ => {},
    }
}

/// In a run that holds a file with the given path, the first file with that
/// path lies within bounds.
proof fn lemma_first_index_exists(project: Project, path: Seq<char>, witness: int)
    requires
        0 <= witness < project.files@.len(),
        project.files@[witness].file_path@ == path,
    ensures
        0 <= project.spec_index_of(path) < project.files@.len(),
        project.files@[project.spec_index_of(path)].file_path@ == path,
    decreases witness,
{
    if forall|j: int| 0 <= j < witness ==> (#[trigger] project.files@[j]).file_path@ != path {
        assert(0 <= witness < project.files@.len() && project.files@[witness].file_path@ == path
            && forall|j: int| 0 <= j < witness ==> project.files@[j].file_path@ != path);
        let c = project.spec_index_of(path);
        assert(0 <= c < project.files@.len() && project.files@[c].file_path@ == path);
    } else {
        let w2 = choose|j: int|
            0 <= j < witness && (#[trigger] project.files@[j]).file_path@ == path;
        lemma_first_index_exists(project, path, w2);
    }
}

proof fn lemma_props_fully_flattened_inert(
    project: Project,
    file: ParsedFile,
    imports: ImportsMap,
    importable: Seq<Seq<char>>,
    props: Seq<PropOrSpread>,
)
    requires
        imports.sound(project),
        spec_props_fully_flattened(project, file, importable, props),
    ensures
        spec_props_inert(project, file, imports, importable, props),
    decreases props, 0int,
{
    if props.len() > 0 {
        match props[0] {
            PropOrSpread::Prop(Prop::KeyValue(kv)) => {
                lemma_fully_flattened_inert(project, file, imports, importable, kv.value);
            },
            _ => {},
        }
        lemma_props_fully_flattened_inert(project, file, imports, importable, props.skip(1));
    }
}

proof fn lemma_elems_fully_flattened_inert(
    project: Project,
    file: ParsedFile,
    imports: ImportsMap,
    importable: Seq<Seq<char>>,
    elems: Seq<Option<ExprOrSpread>>,
)
    requires
        imports.sound(project),
        spec_elems_fully_flattened(project, file, importable, elems),
    ensures
        spec_elems_inert(project, file, imports, importable, elems),
    decreases elems, 0int,
{
    if elems.len() > 0 {
        match elems[0] {
            Some(element) => {
                lemma_fully_flattened_inert(project, file, imports, importable, element.expr);
            },
            None => {},
        }
        lemma_elems_fully_flattened_inert(project, file, imports, importable, elems.skip(1));
    }
}

proof fn lemma_args_fully_flattened_inert(
    project: Project,
    file: ParsedFile,
    imports: ImportsMap,
    importable: Seq<Seq<char>>,
    args: Seq<ExprOrSpread>,
)
    requires
        imports.sound(project),
        spec_args_fully_flattened(project, file, importable, args),
    ensures
        spec_args_inert(project, file, imports, importable, args),
    decreases args, 2int,
{
    if args.len() > 0 {
        match args[0].expr {
            Expr::Array(a) => {
                lemma_elems_fully_flattened_inert(project, file, imports, importable, a.elems@);
            },
            _ => {
                lemma_fully_flattened_inert(project, file, imports, importable, args[0].expr);
            },
        }
        lemma_args_fully_flattened_inert(project, file, imports, importable, args.skip(1));
    }
}

/// Flattens one schema expression with a fresh flattener: the convenience
/// entry point of the flattening subsystem.
pub fn flatten_zod_schema(
    project: &Project,
    schema_expr: &Expr,
    schema_text: &str,
    source_file: &ParsedFile,
    base_directory: &str,
    importable_identifiers: Vec<String>,
) -> (r: Result<String, GeneratorError>)
    ensures
        r is Ok,
        r matches Ok(out) ==> (spec_expr_fully_flattened(
            *project,
            *source_file,
            views_of(importable_identifiers@),
            *schema_expr,
        ) ==> out@ == schema_text@),
        r matches Ok(out2) ==> (spec_direct_self_reference(
            *source_file,
            views_of(importable_identifiers@),
            *schema_expr,
        ) ==> out2@ == schema_text@),
        r matches Ok(out3) ==> (match *schema_expr {
            Expr::Ident(name) => (schema_text@ == name@ && spec_bare_ref_to_flattened(
                *project,
                *source_file,
                views_of(importable_identifiers@),
                name@,
            )) ==> out3@ == text_of(spec_local_initializer(*source_file, name@).unwrap()),
            _ => true,
        }),
{
    let mut flattener = ZodFlattener::new(base_directory).with_importable_identifiers(
        importable_identifiers,
    );
    flattener.flatten_schema(project, schema_expr, schema_text, source_file)
}

} // verus!
