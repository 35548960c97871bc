//! The procedure extractor: walks a router class's methods and turns each
//! attached procedure decorator into one metadata entry.

use vstd::prelude::*;

use crate::ast::{Class, ClassMember, Expr, ModuleItem, PropName};
use crate::decorator::{spec_decorator_info, spec_info_view, DecoratorParser};
use crate::project::ParsedFile;
use crate::text::{str_eq, str_to_string};
use crate::{ProcedureMetadata, ProcedureType};

verus! {

/// The class a top-level item holds under `target_name`, if any: a plain,
/// exported, or named default-exported class declaration.
pub open spec fn spec_class_of_item(item: ModuleItem, target_name: Seq<char>) -> Option<Class> {
    match item {
        ModuleItem::ClassDecl { name, class, exported } => if name@ == target_name {
            Some(class)
        } else {
            None
        },
        ModuleItem::DefaultClass { name, class } => match name {
            Some(n) => if n@ == target_name {
                Some(class)
            } else {
                None
            },
            None => None,
        },
        _ => None,
    }
}

/// The first class of the body, from `i` on, named `target_name`.
pub open spec fn spec_find_class_from(
    body: Seq<ModuleItem>,
    target_name: Seq<char>,
    i: int,
) -> Option<Class>
    decreases body.len() - i,
{
    if i < 0 || i >= body.len() {
        None
    } else {
        match spec_class_of_item(body[i], target_name) {
            Some(c) => Some(c),
            None => spec_find_class_from(body, target_name, i + 1),
        }
    }
}

/// Finds the first top-level class named `target_name` in the body.
#[verifier::loop_isolation(false)]
pub fn find_class_by_name<'a>(body: &'a Vec<ModuleItem>, target_name: &str) -> (r: Option<
    &'a Class,
>)
    ensures
        match r {
            Some(c) => spec_find_class_from(body@, target_name@, 0) == Some(*c),
            None => spec_find_class_from(body@, target_name@, 0) is None,
        },
{
    let mut i: usize = 0;
    while i < body.len()
        invariant
            i <= body@.len(),
            spec_find_class_from(body@, target_name@, 0) == spec_find_class_from(
                body@,
                target_name@,
                i as int,
            ),
        decreases body@.len() - i,
    {
        match &body[i] {
            ModuleItem::ClassDecl { name, class, exported: _ } => {
                if str_eq(name.as_str(), target_name) {
                    return Some(class);
                }
            },
            ModuleItem::DefaultClass { name, class } => {
                match name {
                    Some(n) => {
                        if str_eq(n.as_str(), target_name) {
                            return Some(class);
                        }
                    },
                    None => {},
                }
            },
            _ => {},
        }
        i += 1;
    }
    None
}

/// The view of one procedure entry, over character sequences.
pub struct ProcView {
    pub name: Seq<char>,
    pub procedure_type: ProcedureType,
    pub input_schema: Option<Seq<char>>,
    pub output_schema: Option<Seq<char>>,
    pub input_schema_ref: Option<Seq<char>>,
    pub output_schema_ref: Option<Seq<char>>,
    pub schema_identifiers: Seq<Seq<char>>,
}

/// The collected identifier names of an optional schema expression.
pub open spec fn spec_collect_opt(e: Option<Expr>, acc: Seq<Seq<char>>) -> Seq<Seq<char>> {
    match e {
        Some(x) => crate::decorator::spec_collect_expr(x, acc),
        None => acc,
    }
}

/// The entry one procedure decorator yields on a method: the method's name,
/// the decorator's kind and schema fields, and the identifiers collected
/// from its input then output expressions.
pub open spec fn spec_proc_view(
    name: Seq<char>,
    v: crate::decorator::DecoratorInfoView,
    exprs: (Option<Expr>, Option<Expr>),
) -> ProcView {
    ProcView {
        name,
        procedure_type: v.procedure_type,
        input_schema: v.input,
        output_schema: v.output,
        input_schema_ref: v.input_ref,
        output_schema_ref: v.output_ref,
        schema_identifiers: spec_collect_opt(
            exprs.1,
            spec_collect_opt(exprs.0, Seq::empty()),
        ),
    }
}

/// The entries a method's decorators yield, from decorator `k` on, in
/// decorator order.
pub open spec fn spec_method_procs(name: Seq<char>, ds: Seq<crate::ast::Decorator>, k: int) -> Seq<
    ProcView,
>
    decreases ds.len() - k,
{
    if k < 0 || k >= ds.len() {
        Seq::empty()
    } else {
        match spec_decorator_info(ds[k]) {
            Some(v) => seq![
                spec_proc_view(name, v, crate::decorator::spec_decorator_exprs(ds[k])),
            ] + spec_method_procs(name, ds, k + 1),
            None => spec_method_procs(name, ds, k + 1),
        }
    }
}

/// The entries a class's members yield, from member `i` on: each method
/// with an identifier key contributes its decorators' entries in order.
pub open spec fn spec_class_procs(members: Seq<ClassMember>, i: int) -> Seq<ProcView>
    decreases members.len() - i,
{
    if i < 0 || i >= members.len() {
        Seq::empty()
    } else {
        (match members[i] {
            ClassMember::Method(method) => match method.key {
                PropName::Ident(n) => spec_method_procs(n@, method.decorators@, 0),
                _ => Seq::empty(),
            },
            _ => Seq::empty(),
        }) + spec_class_procs(members, i + 1)
    }
}

/// The entries extraction owes for a class name against a file: those of
/// the first class under that name, none when the file has no such class.
pub open spec fn spec_class_procs_of(
    body: Seq<ModuleItem>,
    class_name: Seq<char>,
) -> Seq<ProcView> {
    match spec_find_class_from(body, class_name, 0) {
        Some(class) => spec_class_procs(class.body@, 0),
        None => Seq::empty(),
    }
}

/// The schema-expression pairs a class's members yield, from member `i`
/// on, aligned entry for entry with `spec_class_procs`.
pub open spec fn spec_class_exprs(members: Seq<ClassMember>, i: int) -> Seq<
    (Option<Expr>, Option<Expr>),
>
    decreases members.len() - i,
{
    if i < 0 || i >= members.len() {
        Seq::empty()
    } else {
        (match members[i] {
            ClassMember::Method(method) => match method.key {
                PropName::Ident(_) => crate::decorator::spec_procedure_exprs(
                    method.decorators@,
                    0,
                ),
                _ => Seq::empty(),
            },
            _ => Seq::empty(),
        }) + spec_class_exprs(members, i + 1)
    }
}

/// The schema-expression pairs extraction reads for a class name against a
/// file, aligned with `spec_class_procs_of`.
pub open spec fn spec_class_exprs_of(
    body: Seq<ModuleItem>,
    class_name: Seq<char>,
) -> Seq<(Option<Expr>, Option<Expr>)> {
    match spec_find_class_from(body, class_name, 0) {
        Some(class) => spec_class_exprs(class.body@, 0),
        None => Seq::empty(),
    }
}

/// The view of an extracted metadata entry.
pub open spec fn spec_metadata_view(p: ProcedureMetadata) -> ProcView {
    ProcView {
        name: p.name@,
        procedure_type: p.procedure_type,
        input_schema: match p.input_schema {
            Some(s) => Some(s@),
            None => None,
        },
        output_schema: match p.output_schema {
            Some(s) => Some(s@),
            None => None,
        },
        input_schema_ref: match p.input_schema_ref {
            Some(s) => Some(s@),
            None => None,
        },
        output_schema_ref: match p.output_schema_ref {
            Some(s) => Some(s@),
            None => None,
        },
        schema_identifiers: p.schema_identifiers@.map_values(|s: String| s@),
    }
}

/// Extracts one metadata entry per procedure decorator on each method of
/// the named class, in class order; a method under two decorators yields
/// two entries. The result is exactly the class's entry list: each entry
/// carries the method's name, the decorator's kind, schema texts,
/// bare-identifier markers, and the identifier names collected from its
/// schema expressions.
#[verifier::loop_isolation(false)]
pub fn extract_procedures_from_class(
    parsed_file: &ParsedFile,
    class_name: &str,
    decorator_parser: &DecoratorParser,
) -> (r: Vec<ProcedureMetadata>)
    ensures
        r@.map_values(|p: ProcedureMetadata| spec_metadata_view(p)) == spec_class_procs_of(
            parsed_file.module.body@,
            class_name@,
        ),
        forall|k: int| 0 <= k < r@.len() ==> (match (#[trigger] r@[k]).input_schema_ref {
            Some(reference) => r@[k].input_schema matches Some(text) && text@ == reference@,
            None => true,
        }),
        forall|k: int| 0 <= k < r@.len() ==> (match (#[trigger] r@[k]).output_schema_ref {
            Some(reference) => r@[k].output_schema matches Some(text) && text@ == reference@,
            None => true,
        }),
{
    let ghost view_of = |p: ProcedureMetadata| spec_metadata_view(p);
    let class = match find_class_by_name(&parsed_file.module.body, class_name) {
        Some(c) => c,
        None => {
            let r: Vec<ProcedureMetadata> = Vec::new();
            proof {
                assert(r@.map_values(view_of) =~= Seq::<ProcView>::empty());
            }
            return r;
        },
    };

    let mut procedures: Vec<ProcedureMetadata> = Vec::new();
    let members = &class.body;
    let mut i: usize = 0;
    proof {
        assert(procedures@.map_values(view_of) + spec_class_procs(members@, 0)
            =~= spec_class_procs(members@, 0));
    }
    while i < members.len()
        invariant
            i <= members@.len(),
            spec_class_procs(class.body@, 0) =~= procedures@.map_values(view_of)
                + spec_class_procs(members@, i as int),
            forall|k: int|
                0 <= k < procedures@.len() ==> (
                match (#[trigger] procedures@[k]).input_schema_ref {
                    Some(reference) => procedures@[k].input_schema matches Some(text) && text@
                        == reference@,
                    None => true,
                }),
            forall|k: int|
                0 <= k < procedures@.len() ==> (
                match (#[trigger] procedures@[k]).output_schema_ref {
                    Some(reference) => procedures@[k].output_schema matches Some(text) && text@
                        == reference@,
                    None => true,
                }),
        decreases members@.len() - i,
    {
        match &members[i] {
            ClassMember::Method(method) => {
                match &method.key {
                    PropName::Ident(method_name) => {
                        let decorators = &method.decorators;
                        let mut k: usize = 0;
                        while k < decorators.len()
                            invariant
                                k <= decorators@.len(),
                                spec_class_procs(class.body@, 0) =~= procedures@.map_values(
                                    view_of,
                                ) + spec_method_procs(method_name@, decorators@, k as int)
                                    + spec_class_procs(members@, i + 1),
                                forall|j: int|
                                    0 <= j < procedures@.len() ==> (match (
                                    #[trigger] procedures@[j]).input_schema_ref {
                                        Some(reference) => procedures@[j].input_schema
                                            matches Some(text) && text@ == reference@,
                                        None => true,
                                    }),
                                forall|j: int|
                                    0 <= j < procedures@.len() ==> (match (
                                    #[trigger] procedures@[j]).output_schema_ref {
                                        Some(reference) => procedures@[j].output_schema
                                            matches Some(text) && text@ == reference@,
                                        None => true,
                                    }),
                            decreases decorators@.len() - k,
                        {
                            let ghost procs_before = procedures@;
                            match crate::decorator::extract_one(&decorators[k]) {
                                Some(info) => {
                                    let ghost iv = spec_info_view(info);
                                    proof {
                                        assert(spec_decorator_info(decorators@[k as int])
                                            == Some(iv));
                                        crate::decorator::lemma_decorator_info_consistent(
                                            decorators@[k as int],
                                        );
                                    }
                                    let pair = crate::decorator::decorator_schema_exprs(
                                        &decorators[k],
                                    );
                                    let mut identifiers: Vec<String> = Vec::new();
                                    proof {
                                        assert(identifiers@.map_values(|s: String| s@) =~= Seq::<
                                            Seq<char>,
                                        >::empty());
                                    }
                                    match pair.0 {
                                        Some(e) => {
                                            crate::decorator::collect_into(e, &mut identifiers);
                                        },
                                        None => {},
                                    }
                                    match pair.1 {
                                        Some(e) => {
                                            crate::decorator::collect_into(e, &mut identifiers);
                                        },
                                        None => {},
                                    }
                                    let input_schema = match &info.input {
                                        Some(s) => Some(str_to_string(s.as_str())),
                                        None => None,
                                    };
                                    let output_schema = match &info.output {
                                        Some(s) => Some(str_to_string(s.as_str())),
                                        None => None,
                                    };
                                    let input_schema_ref = match &info.input_ref {
                                        Some(s) => Some(str_to_string(s.as_str())),
                                        None => None,
                                    };
                                    let output_schema_ref = match &info.output_ref {
                                        Some(s) => Some(str_to_string(s.as_str())),
                                        None => None,
                                    };
                                    procedures.push(
                                        ProcedureMetadata {
                                            name: str_to_string(method_name.as_str()),
                                            procedure_type: info.procedure_type,
                                            input_schema,
                                            output_schema,
                                            input_schema_ref,
                                            output_schema_ref,
                                            schema_identifiers: identifiers,
                                        },
                                    );
                                    proof {
                                        assert(spec_metadata_view(procedures@.last())
                                            == spec_proc_view(
                                            method_name@,
                                            iv,
                                            crate::decorator::spec_decorator_exprs(
                                                decorators@[k as int],
                                            ),
                                        ));
                                        assert(procedures@.map_values(view_of)
                                            =~= procs_before.map_values(view_of).push(
                                            spec_metadata_view(procedures@.last()),
                                        ));
                                    }
                                },
                                None => {},
                            }
                            k += 1;
                        }
                    },
                    _ => {},
                }
            },
            _ => {},
        }
        i += 1;
    }
    proof {
        assert(procedures@.map_values(view_of) + Seq::<ProcView>::empty()
            =~= procedures@.map_values(view_of));
    }
    procedures
}

} // verus!
