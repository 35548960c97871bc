//! The procedure-decorator extractor: reads `Query` and `Mutation`
//! decorators and their `input` / `output` schema properties.

use vstd::prelude::*;

use crate::ast::{text_of, Callee, Decorator, Expr, Prop, PropName, PropOrSpread};
use crate::text::{str_eq, str_to_string};
use crate::ProcedureType;

verus! {

/// What one procedure decorator declares: the kind of endpoint, the source
/// text of its schemas, and, for a schema given as a bare identifier, that
/// identifier's name.
#[derive(Debug, Clone, PartialEq, Eq)]
pub struct ProcedureDecoratorInfo {
    pub procedure_type: ProcedureType,
    pub input: Option<String>,
    pub output: Option<String>,
    pub input_ref: Option<String>,
    pub output_ref: Option<String>,
}

/// The schema-bearing properties collected from a decorator's argument.
#[derive(Debug, Clone, PartialEq, Eq, Default)]
pub struct DecoratorArguments {
    pub input: Option<String>,
    pub output: Option<String>,
    pub input_ref: Option<String>,
    pub output_ref: Option<String>,
}

/// The view of one extracted decorator, over character sequences.
pub struct DecoratorInfoView {
    pub procedure_type: ProcedureType,
    pub input: Option<Seq<char>>,
    pub output: Option<Seq<char>>,
    pub input_ref: Option<Seq<char>>,
    pub output_ref: Option<Seq<char>>,
}

/// The view of collected decorator arguments.
pub struct ArgsView {
    pub input: Option<Seq<char>>,
    pub output: Option<Seq<char>>,
    pub input_ref: Option<Seq<char>>,
    pub output_ref: Option<Seq<char>>,
}

/// The empty argument view.
pub open spec fn spec_args_empty() -> ArgsView {
    ArgsView { input: None, output: None, input_ref: None, output_ref: None }
}

/// The name of a property key, when it is an identifier or a string.
pub open spec fn spec_prop_key_name(key: PropName) -> Option<Seq<char>> {
    match key {
        PropName::Ident(name) => Some(name@),
        PropName::Str(value) => Some(value@),
        _ => None,
    }
}

/// The name of a bare-identifier expression, if it is one.
pub open spec fn spec_ident_ref(e: Expr) -> Option<Seq<char>> {
    match e {
        Expr::Ident(name) => Some(name@),
        _ => None,
    }
}

/// The procedure kind a name denotes, if any.
pub open spec fn spec_procedure_type_of(name: Seq<char>) -> Option<ProcedureType> {
    if name == "Query"@ {
        Some(ProcedureType::Query)
    } else if name == "Mutation"@ {
        Some(ProcedureType::Mutation)
    } else {
        None
    }
}

/// The argument view after applying the properties from `i` on: an `input`
/// or `output` key records the value's source text and, for a bare
/// identifier, its name; later keys override earlier ones.
pub open spec fn spec_apply_props(props: Seq<PropOrSpread>, i: int, acc: ArgsView) -> ArgsView
    decreases props.len() - i,
{
    if i < 0 || i >= props.len() {
        acc
    } else {
        let acc2 = match props[i] {
            PropOrSpread::Prop(Prop::KeyValue(kv)) => match spec_prop_key_name(kv.key) {
                Some(k) => if k == "input"@ {
                    ArgsView {
                        input: Some(text_of(kv.value)),
                        input_ref: spec_ident_ref(kv.value),
                        ..acc
                    }
                } else if k == "output"@ {
                    ArgsView {
                        output: Some(text_of(kv.value)),
                        output_ref: spec_ident_ref(kv.value),
                        ..acc
                    }
                } else {
                    acc
                },
                None => acc,
            },
            _ => acc,
        };
        spec_apply_props(props, i + 1, acc2)
    }
}

/// What one decorator declares: nothing for a non-procedure decorator; a
/// bare `Query` or `Mutation`, or a call with no argument or a non-object
/// argument, declares the kind alone; a call with an object-literal
/// argument also carries the collected schema properties.
pub open spec fn spec_decorator_info(d: Decorator) -> Option<DecoratorInfoView> {
    match d.expr {
        Expr::Ident(name) => match spec_procedure_type_of(name@) {
            Some(t) => Some(spec_info_of(t, spec_args_empty())),
            None => None,
        },
        Expr::Call(c) => match c.callee {
            Callee::Expr(callee) => match *callee {
                Expr::Ident(name) => match spec_procedure_type_of(name@) {
                    Some(t) => if c.args@.len() == 0 {
                        Some(spec_info_of(t, spec_args_empty()))
                    } else {
                        match c.args@[0].expr {
                            Expr::Object(o) => Some(
                                spec_info_of(t, spec_apply_props(o.props@, 0, spec_args_empty())),
                            ),
                            _ => Some(spec_info_of(t, spec_args_empty())),
                        }
                    },
                    None => None,
                },
                _ => None,
            },
            Callee::Other => None,
        },
        _ => None,
    }
}

/// An info view from a kind and collected arguments.
pub open spec fn spec_info_of(t: ProcedureType, a: ArgsView) -> DecoratorInfoView {
    DecoratorInfoView {
        procedure_type: t,
        input: a.input,
        output: a.output,
        input_ref: a.input_ref,
        output_ref: a.output_ref,
    }
}

/// The schema expressions after applying the properties from `i` on: an
/// `input` or `output` key records the value expression; later keys
/// override earlier ones.
pub open spec fn spec_apply_exprs(
    props: Seq<PropOrSpread>,
    i: int,
    acc: (Option<Expr>, Option<Expr>),
) -> (Option<Expr>, Option<Expr>)
    decreases props.len() - i,
{
    if i < 0 || i >= props.len() {
        acc
    } else {
        let acc2 = match props[i] {
            PropOrSpread::Prop(Prop::KeyValue(kv)) => match spec_prop_key_name(kv.key) {
                Some(k) => if k == "input"@ {
                    (Some(kv.value), acc.1)
                } else if k == "output"@ {
                    (acc.0, Some(kv.value))
                } else {
                    acc
                },
                None => acc,
            },
            _ => acc,
        };
        spec_apply_exprs(props, i + 1, acc2)
    }
}

/// The parsed `input` and `output` schema expressions a decorator carries:
/// the property values of its first object-literal argument, absent for a
/// bare decorator, a call without arguments, or a non-object argument.
pub open spec fn spec_decorator_exprs(d: Decorator) -> (Option<Expr>, Option<Expr>) {
    match d.expr {
        Expr::Call(c) => if c.args@.len() > 0 {
            match c.args@[0].expr {
                Expr::Object(o) => spec_apply_exprs(o.props@, 0, (None, None)),
                _ => (None, None),
            }
        } else {
            (None, None)
        },
        _ => (None, None),
    }
}

/// The schema expressions of the procedure decorators from `i` on, in
/// order, aligned with `spec_decorator_infos`.
pub open spec fn spec_procedure_exprs(ds: Seq<Decorator>, i: int) -> Seq<
    (Option<Expr>, Option<Expr>),
>
    decreases ds.len() - i,
{
    if i < 0 || i >= ds.len() {
        Seq::empty()
    } else {
        match spec_decorator_info(ds[i]) {
            Some(v) => seq![spec_decorator_exprs(ds[i])] + spec_procedure_exprs(ds, i + 1),
            None => spec_procedure_exprs(ds, i + 1),
        }
    }
}

/// The infos of the procedure decorators from `i` on, in order.
pub open spec fn spec_decorator_infos(ds: Seq<Decorator>, i: int) -> Seq<DecoratorInfoView>
    decreases ds.len() - i,
{
    if i < 0 || i >= ds.len() {
        Seq::empty()
    } else {
        match spec_decorator_info(ds[i]) {
            Some(v) => seq![v] + spec_decorator_infos(ds, i + 1),
            None => spec_decorator_infos(ds, i + 1),
        }
    }
}

/// The view of an extracted info value.
pub open spec fn spec_info_view(info: ProcedureDecoratorInfo) -> DecoratorInfoView {
    DecoratorInfoView {
        procedure_type: info.procedure_type,
        input: match info.input {
            Some(s) => Some(s@),
            None => None,
        },
        output: match info.output {
            Some(s) => Some(s@),
            None => None,
        },
        input_ref: match info.input_ref {
            Some(s) => Some(s@),
            None => None,
        },
        output_ref: match info.output_ref {
            Some(s) => Some(s@),
            None => None,
        },
    }
}

/// A bare-identifier marker always repeats the schema text: where a schema
/// arrived as a bare identifier, the recorded text is that identifier.
pub open spec fn spec_info_consistent(v: DecoratorInfoView) -> bool {
    (match v.input_ref {
        Some(r) => v.input == Some(r),
        None => true,
    }) && (match v.output_ref {
        Some(r) => v.output == Some(r),
        None => true,
    })
}

/// The same, read off an argument view.
pub open spec fn spec_args_consistent(a: ArgsView) -> bool {
    (match a.input_ref {
        Some(r) => a.input == Some(r),
        None => true,
    }) && (match a.output_ref {
        Some(r) => a.output == Some(r),
        None => true,
    })
}

proof fn lemma_apply_props_consistent(props: Seq<PropOrSpread>, i: int, acc: ArgsView)
    requires
        spec_args_consistent(acc),
    ensures
        spec_args_consistent(spec_apply_props(props, i, acc)),
    decreases props.len() - i,
{
    if 0 <= i < props.len() {
        let acc2 = match props[i] {
            PropOrSpread::Prop(Prop::KeyValue(kv)) => match spec_prop_key_name(kv.key) {
                Some(k) => if k == "input"@ {
                    ArgsView {
                        input: Some(text_of(kv.value)),
                        input_ref: spec_ident_ref(kv.value),
                        ..acc
                    }
                } else if k == "output"@ {
                    ArgsView {
                        output: Some(text_of(kv.value)),
                        output_ref: spec_ident_ref(kv.value),
                        ..acc
                    }
                } else {
                    acc
                },
                None => acc,
            },
            _ => acc,
        };
        lemma_apply_props_consistent(props, i + 1, acc2);
    }
}

/// One decorator's extracted info keeps the bare-identifier invariant.
pub proof fn lemma_decorator_info_consistent(d: Decorator)
    ensures
        match spec_decorator_info(d) {
            Some(v) => spec_info_consistent(v),
            None => true,
        },
{
    match spec_decorator_info(d) {
        Some(v) => {
            match d.expr {
                Expr::Call(c) => {
                    if c.args.len() > 0 {
                        match c.args[0].expr {
                            Expr::Object(o) => {
                                lemma_apply_props_consistent(o.props@, 0, spec_args_empty());
                            },
                            _ => {},
                        }
                    }
                },
                _ => {},
            }
        },
        None => {},
    }
}

/// Every extracted decorator info keeps the bare-identifier invariant.
pub proof fn lemma_infos_consistent(ds: Seq<Decorator>, i: int)
    ensures
        forall|k: int|
            0 <= k < spec_decorator_infos(ds, i).len() ==> spec_info_consistent(
                #[trigger] spec_decorator_infos(ds, i)[k],
            ),
    decreases ds.len() - i,
{
    if 0 <= i < ds.len() {
        lemma_infos_consistent(ds, i + 1);
        match spec_decorator_info(ds[i]) {
            Some(v) => {
                assert(spec_info_consistent(v)) by {
                    match ds[i].expr {
                        Expr::Call(c) => {
                            if c.args.len() > 0 {
                                match c.args[0].expr {
                                    Expr::Object(o) => {
                                        lemma_apply_props_consistent(
                                            o.props@,
                                            0,
                                            spec_args_empty(),
                                        );
                                    },
                                    _ => {},
                                }
                            }
                        },
                        _ => {},
                    }
                }
                let whole = spec_decorator_infos(ds, i);
                let rest = spec_decorator_infos(ds, i + 1);
                assert(whole =~= seq![v] + rest);
                assert forall|k: int| 0 <= k < whole.len() implies spec_info_consistent(
                    #[trigger] whole[k],
                ) by {
                    if k == 0 {
                        assert(whole[k] == v);
                    } else {
                        assert(spec_info_consistent(spec_decorator_infos(ds, i + 1)[k - 1]));
                        assert(whole[k] == rest[k - 1]);
                    }
                }
            },
            None => {
                let whole = spec_decorator_infos(ds, i);
                assert forall|k: int| 0 <= k < whole.len() implies spec_info_consistent(
                    #[trigger] whole[k],
                ) by {
                    assert(spec_info_consistent(spec_decorator_infos(ds, i + 1)[k]));
                }
            },
        }
    }
}

fn prop_key_name(key: &PropName) -> (r: Option<&String>)
    ensures
        match r {
            Some(s) => spec_prop_key_name(*key) == Some(s@),
            None => spec_prop_key_name(*key) is None,
        },
{
    match key {
        PropName::Ident(name) => Some(name),
        PropName::Str(value) => Some(value),
        _ => None,
    }
}

fn procedure_type_of(name: &str) -> (r: Option<ProcedureType>)
    ensures
        r == spec_procedure_type_of(name@),
{
    if str_eq(name, "Query") {
        Some(ProcedureType::Query)
    } else if str_eq(name, "Mutation") {
        Some(ProcedureType::Mutation)
    } else {
        None
    }
}

#[verifier::loop_isolation(false)]
fn apply_props(props: &Vec<PropOrSpread>) -> (r: DecoratorArguments)
    ensures
        spec_args_view(r) == spec_apply_props(props@, 0, spec_args_empty()),
{
    let mut acc = DecoratorArguments {
        input: None,
        output: None,
        input_ref: None,
        output_ref: None,
    };
    let mut i: usize = 0;
    while i < props.len()
        invariant
            i <= props@.len(),
            spec_apply_props(props@, 0, spec_args_empty()) == spec_apply_props(
                props@,
                i as int,
                spec_args_view(acc),
            ),
        decreases props@.len() - i,
    {
        match &props[i] {
            PropOrSpread::Prop(Prop::KeyValue(kv)) => {
                match prop_key_name(&kv.key) {
                    Some(k) => {
                        if str_eq(k.as_str(), "input") {
                            acc.input = Some(str_to_string(kv.value.text().as_str()));
                            acc.input_ref = match &kv.value {
                                Expr::Ident(name) => Some(str_to_string(name.as_str())),
                                _ => None,
                            };
                        } else if str_eq(k.as_str(), "output") {
                            acc.output = Some(str_to_string(kv.value.text().as_str()));
                            acc.output_ref = match &kv.value {
                                Expr::Ident(name) => Some(str_to_string(name.as_str())),
                                _ => None,
                            };
                        }
                    },
                    None => {},
                }
            },
            _ => {},
        }
        i += 1;
    }
    acc
}

/// The view of collected arguments.
pub open spec fn spec_args_view(a: DecoratorArguments) -> ArgsView {
    ArgsView {
        input: match a.input {
            Some(s) => Some(s@),
            None => None,
        },
        output: match a.output {
            Some(s) => Some(s@),
            None => None,
        },
        input_ref: match a.input_ref {
            Some(s) => Some(s@),
            None => None,
        },
        output_ref: match a.output_ref {
            Some(s) => Some(s@),
            None => None,
        },
    }
}

fn info_of(t: ProcedureType, a: DecoratorArguments) -> (r: ProcedureDecoratorInfo)
    ensures
        spec_info_view(r) == spec_info_of(t, spec_args_view(a)),
{
    ProcedureDecoratorInfo {
        procedure_type: t,
        input: a.input,
        output: a.output,
        input_ref: a.input_ref,
        output_ref: a.output_ref,
    }
}

pub(crate) fn extract_one(d: &Decorator) -> (r: Option<ProcedureDecoratorInfo>)
    ensures
        match r {
            Some(info) => spec_decorator_info(*d) == Some(spec_info_view(info)),
            None => spec_decorator_info(*d) is None,
        },
{
    let empty = DecoratorArguments { input: None, output: None, input_ref: None, output_ref: None };
    match &d.expr {
        Expr::Ident(name) => {
            match procedure_type_of(name.as_str()) {
                Some(t) => Some(info_of(t, empty)),
                None => None,
            }
        },
        Expr::Call(c) => {
            match &c.callee {
                Callee::Expr(callee) => {
                    match &**callee {
                        Expr::Ident(name) => {
                            match procedure_type_of(name.as_str()) {
                                Some(t) => {
                                    if c.args.len() == 0 {
                                        Some(info_of(t, empty))
                                    } else {
                                        match &c.args[0].expr {
                                            Expr::Object(o) => {
                                                let args = apply_props(&o.props);
                                                Some(info_of(t, args))
                                            },
                                            _ => Some(info_of(t, empty)),
                                        }
                                    }
                                },
                                None => None,
                            }
                        },
                        _ => None,
                    }
                },
                Callee::Other => None,
            }
        },
        _ => None,
    }
}

/// Reads `Query` and `Mutation` decorators; it carries no state.
#[derive(Debug, Clone, PartialEq, Eq)]
pub struct DecoratorParser {}

impl DecoratorParser {
    /// A decorator parser.
    pub fn new() -> (r: DecoratorParser) {
        DecoratorParser {}
    }

    /// Extracts the info of every procedure decorator among the given ones,
    /// in order.
    #[verifier::loop_isolation(false)]
    pub fn extract_procedure_decorators(&self, decorators: &Vec<Decorator>) -> (r: Vec<
        ProcedureDecoratorInfo,
    >)
        ensures
            r@.map_values(|info: ProcedureDecoratorInfo| spec_info_view(info))
                =~= spec_decorator_infos(decorators@, 0),
    {
        let mut infos: Vec<ProcedureDecoratorInfo> = Vec::new();
        let mut i: usize = 0;
        while i < decorators.len()
            invariant
                i <= decorators@.len(),
                spec_decorator_infos(decorators@, 0) =~= infos@.map_values(
                    |info: ProcedureDecoratorInfo| spec_info_view(info),
                ) + spec_decorator_infos(decorators@, i as int),
            decreases decorators@.len() - i,
        {
            let ghost infos_before = infos@;
            match extract_one(&decorators[i]) {
                Some(info) => {
                    infos.push(info);
                    proof {
                        assert(infos@.map_values(
                            |info: ProcedureDecoratorInfo| spec_info_view(info),
                        ) =~= infos_before.map_values(
                            |info: ProcedureDecoratorInfo| spec_info_view(info),
                        ) + seq![spec_info_view(infos@.last())]);
                    }
                },
                None => {},
            }
            i += 1;
        }
        infos
    }

    /// The schema expressions of every procedure decorator among the given
    /// ones, aligned with `extract_procedure_decorators`: for each info the
    /// parsed `input` and `output` property values, when the decorator call
    /// carried an object-literal argument holding them.
    #[verifier::loop_isolation(false)]
    pub fn extract_procedure_schema_exprs<'a>(&self, decorators: &'a Vec<Decorator>) -> (r: Vec<
        (Option<&'a Expr>, Option<&'a Expr>),
    >)
        ensures
            r@.map_values(
                |pair: (Option<&Expr>, Option<&Expr>)|
                    (
                        match pair.0 {
                            Some(e) => Some(*e),
                            None => None,
                        },
                        match pair.1 {
                            Some(e) => Some(*e),
                            None => None,
                        },
                    ),
            ) == spec_procedure_exprs(decorators@, 0),
            r@.len() == spec_decorator_infos(decorators@, 0).len(),
    {
        let ghost view_of = |pair: (Option<&Expr>, Option<&Expr>)|
            (
                match pair.0 {
                    Some(e) => Some(*e),
                    None => None,
                },
                match pair.1 {
                    Some(e) => Some(*e),
                    None => None,
                },
            );
        let mut exprs: Vec<(Option<&'a Expr>, Option<&'a Expr>)> = Vec::new();
        let mut i: usize = 0;
        while i < decorators.len()
            invariant
                i <= decorators@.len(),
                spec_procedure_exprs(decorators@, 0) =~= exprs@.map_values(view_of)
                    + spec_procedure_exprs(decorators@, i as int),
                exprs@.len() + spec_decorator_infos(decorators@, i as int).len()
                    == spec_decorator_infos(decorators@, 0).len(),
            decreases decorators@.len() - i,
        {
            let d = &decorators[i];
            let ghost exprs_before = exprs@;
            if is_procedure_decorator(d) {
                let pair = decorator_schema_exprs(d);
                exprs.push(pair);
                proof {
                    assert(exprs@.map_values(view_of) =~= exprs_before.map_values(view_of).push(
                        view_of(exprs@.last()),
                    ));
                    assert(view_of(exprs@.last()) == spec_decorator_exprs(decorators@[i as int]));
                }
            }
            i += 1;
        }
        exprs
    }
}

/// The parsed `input` and `output` schema expressions of one decorator.
#[verifier::loop_isolation(false)]
pub(crate) fn decorator_schema_exprs<'a>(d: &'a Decorator) -> (r: (
    Option<&'a Expr>,
    Option<&'a Expr>,
))
    ensures
        (match r.0 {
            Some(e) => spec_decorator_exprs(*d).0 == Some(*e),
            None => spec_decorator_exprs(*d).0 is None,
        }),
        (match r.1 {
            Some(e) => spec_decorator_exprs(*d).1 == Some(*e),
            None => spec_decorator_exprs(*d).1 is None,
        }),
{
    let mut input_expr: Option<&'a Expr> = None;
    let mut output_expr: Option<&'a Expr> = None;
    match &d.expr {
        Expr::Call(c) => {
            if c.args.len() > 0 {
                match &c.args[0].expr {
                    Expr::Object(o) => {
                        let props = &o.props;
                        let mut k: usize = 0;
                        while k < props.len()
                            invariant
                                k <= props@.len(),
                                spec_apply_exprs(props@, 0, (None, None)) == spec_apply_exprs(
                                    props@,
                                    k as int,
                                    (
                                        match input_expr {
                                            Some(e) => Some(*e),
                                            None => None,
                                        },
                                        match output_expr {
                                            Some(e) => Some(*e),
                                            None => None,
                                        },
                                    ),
                                ),
                            decreases props@.len() - k,
                        {
                            match &props[k] {
                                PropOrSpread::Prop(Prop::KeyValue(kv)) => {
                                    match prop_key_name(&kv.key) {
                                        Some(key) => {
                                            if str_eq(key.as_str(), "input") {
                                                input_expr = Some(&kv.value);
                                            } else if str_eq(key.as_str(), "output") {
                                                output_expr = Some(&kv.value);
                                            }
                                        },
                                        None => {},
                                    }
                                },
                                _ => {},
                            }
                            k += 1;
                        }
                    },
                    _ => {},
                }
            }
        },
        _ => {},
    }
    (input_expr, output_expr)
}

/// Whether a decorator is a procedure decorator: a bare `Query` or
/// `Mutation` identifier, or a call of one.
pub fn is_procedure_decorator(decorator: &Decorator) -> (r: bool)
    ensures
        r == (spec_decorator_info(*decorator) is Some),
{
    match &decorator.expr {
        Expr::Ident(name) => is_procedure_name(name.as_str()),
        Expr::Call(c) => {
            match &c.callee {
                Callee::Expr(callee) => {
                    match &**callee {
                        Expr::Ident(name) => is_procedure_name(name.as_str()),
                        _ => false,
                    }
                },
                Callee::Other => false,
            }
        },
        _ => false,
    }
}

/// Whether a name denotes a procedure kind.
pub fn is_procedure_name(name: &str) -> (r: bool)
    ensures
        r == (spec_procedure_type_of(name@) is Some),
{
    str_eq(name, "Query") || str_eq(name, "Mutation")
}

/// Whether one of the collected name views equals `name`.
pub open spec fn spec_collected_has(acc: Seq<Seq<char>>, name: Seq<char>) -> bool {
    exists|k: int| 0 <= k < acc.len() && acc[k] == name
}

/// The collected names after walking one expression: a bare identifier is
/// appended at its first occurrence unless it is the validator namespace;
/// object values, array elements, callees and arguments are walked in
/// source order.
pub open spec fn spec_collect_expr(e: Expr, acc: Seq<Seq<char>>) -> Seq<Seq<char>>
    decreases e, 2int,
{
    match e {
        Expr::Ident(name) => if name@ == "z"@ || spec_collected_has(acc, name@) {
            acc
        } else {
            acc.push(name@)
        },
        Expr::Object(o) => spec_collect_props(o.props@, acc),
        Expr::Array(a) => spec_collect_elems(a.elems@, acc),
        Expr::Call(c) => spec_collect_args(
            c.args@,
            match c.callee {
                Callee::Expr(callee) => spec_collect_expr(*callee, acc),
                Callee::Other => acc,
            },
        ),
        Expr::Member(m) => spec_collect_expr(*m.obj, acc),
        Expr::Paren(p) => spec_collect_expr(*p.expr, acc),
        _ => acc,
    }
}

/// The collected names after walking the key-value properties of an
/// object literal.
pub open spec fn spec_collect_props(props: Seq<PropOrSpread>, acc: Seq<Seq<char>>) -> Seq<
    Seq<char>,
>
    decreases props, 0int,
{
    if props.len() == 0 {
        acc
    } else {
        spec_collect_props(
            props.skip(1),
            match props[0] {
                PropOrSpread::Prop(Prop::KeyValue(kv)) => spec_collect_expr(kv.value, acc),
                _ => acc,
            },
        )
    }
}

/// The collected names after walking the present elements of an array
/// literal.
pub open spec fn spec_collect_elems(
    elems: Seq<Option<crate::ast::ExprOrSpread>>,
    acc: Seq<Seq<char>>,
) -> Seq<Seq<char>>
    decreases elems, 0int,
{
    if elems.len() == 0 {
        acc
    } else {
        spec_collect_elems(
            elems.skip(1),
            match elems[0] {
                Some(element) => spec_collect_expr(element.expr, acc),
                None => acc,
            },
        )
    }
}

/// The collected names after walking the arguments of a call.
pub open spec fn spec_collect_args(
    args: Seq<crate::ast::ExprOrSpread>,
    acc: Seq<Seq<char>>,
) -> Seq<Seq<char>>
    decreases args, 0int,
{
    if args.len() == 0 {
        acc
    } else {
        spec_collect_args(args.skip(1), spec_collect_expr(args[0].expr, acc))
    }
}

/// Walking an expression never drops a collected name: the accumulator is
/// a prefix of the result.
pub proof fn lemma_collect_expr_grows(e: Expr, acc: Seq<Seq<char>>)
    ensures
        spec_collect_expr(e, acc).len() >= acc.len(),
        spec_collect_expr(e, acc).subrange(0, acc.len() as int) == acc,
    decreases e, 2int,
{
    match e {
        Expr::Ident(name) => {
            if !(name@ == "z"@ || spec_collected_has(acc, name@)) {
                assert(acc.push(name@).subrange(0, acc.len() as int) =~= acc);
            } else {
                assert(acc.subrange(0, acc.len() as int) =~= acc);
            }
        },
        Expr::Object(o) => {
            lemma_collect_props_grows(o.props@, acc);
        },
        Expr::Array(a) => {
            lemma_collect_elems_grows(a.elems@, acc);
        },
        Expr::Call(c) => {
            match c.callee {
                Callee::Expr(callee) => {
                    lemma_collect_expr_grows(*callee, acc);
                    let mid = spec_collect_expr(*callee, acc);
                    lemma_collect_args_grows(c.args@, mid);
                    assert(spec_collect_args(c.args@, mid).subrange(0, acc.len() as int)
                        =~= spec_collect_args(c.args@, mid).subrange(
                        0,
                        mid.len() as int,
                    ).subrange(0, acc.len() as int));
                },
                Callee::Other => {
                    lemma_collect_args_grows(c.args@, acc);
                },
            }
        },
        Expr::Member(m) => {
            lemma_collect_expr_grows(*m.obj, acc);
        },
        Expr::Paren(p) => {
            lemma_collect_expr_grows(*p.expr, acc);
        },
        _ => {
            assert(acc.subrange(0, acc.len() as int) =~= acc);
        },
    }
}

/// As `lemma_collect_expr_grows`, for an object literal's properties.
pub proof fn lemma_collect_props_grows(props: Seq<PropOrSpread>, acc: Seq<Seq<char>>)
    ensures
        spec_collect_props(props, acc).len() >= acc.len(),
        spec_collect_props(props, acc).subrange(0, acc.len() as int) == acc,
    decreases props, 0int,
{
    if props.len() == 0 {
        assert(acc.subrange(0, acc.len() as int) =~= acc);
    } else {
        let mid = match props[0] {
            PropOrSpread::Prop(Prop::KeyValue(kv)) => spec_collect_expr(kv.value, acc),
            _ => acc,
        };
        match props[0] {
            PropOrSpread::Prop(Prop::KeyValue(kv)) => {
                lemma_collect_expr_grows(kv.value, acc);
            },
            _ => {
                assert(acc.subrange(0, acc.len() as int) =~= acc);
            },
        }
        lemma_collect_props_grows(props.skip(1), mid);
        assert(spec_collect_props(props.skip(1), mid).subrange(0, acc.len() as int)
            =~= spec_collect_props(props.skip(1), mid).subrange(0, mid.len() as int).subrange(
            0,
            acc.len() as int,
        ));
    }
}

/// As `lemma_collect_expr_grows`, for an array literal's elements.
pub proof fn lemma_collect_elems_grows(
    elems: Seq<Option<crate::ast::ExprOrSpread>>,
    acc: Seq<Seq<char>>,
)
    ensures
        spec_collect_elems(elems, acc).len() >= acc.len(),
        spec_collect_elems(elems, acc).subrange(0, acc.len() as int) == acc,
    decreases elems, 0int,
{
    if elems.len() == 0 {
        assert(acc.subrange(0, acc.len() as int) =~= acc);
    } else {
        let mid = match elems[0] {
            Some(element) => spec_collect_expr(element.expr, acc),
            None => acc,
        };
        match elems[0] {
            Some(element) => {
                lemma_collect_expr_grows(element.expr, acc);
            },
            None => {
                assert(acc.subrange(0, acc.len() as int) =~= acc);
            },
        }
        lemma_collect_elems_grows(elems.skip(1), mid);
        assert(spec_collect_elems(elems.skip(1), mid).subrange(0, acc.len() as int)
            =~= spec_collect_elems(elems.skip(1), mid).subrange(0, mid.len() as int).subrange(
            0,
            acc.len() as int,
        ));
    }
}

/// As `lemma_collect_expr_grows`, for a call's arguments.
pub proof fn lemma_collect_args_grows(args: Seq<crate::ast::ExprOrSpread>, acc: Seq<Seq<char>>)
    ensures
        spec_collect_args(args, acc).len() >= acc.len(),
        spec_collect_args(args, acc).subrange(0, acc.len() as int) == acc,
    decreases args, 0int,
{
    if args.len() == 0 {
        assert(acc.subrange(0, acc.len() as int) =~= acc);
    } else {
        let mid = spec_collect_expr(args[0].expr, acc);
        lemma_collect_expr_grows(args[0].expr, acc);
        lemma_collect_args_grows(args.skip(1), mid);
        assert(spec_collect_args(args.skip(1), mid).subrange(0, acc.len() as int)
            =~= spec_collect_args(args.skip(1), mid).subrange(0, mid.len() as int).subrange(
            0,
            acc.len() as int,
        ));
    }
}


/// Walking an expression keeps the collected names duplicate-free: a name
/// is appended only when it is not yet held.
pub proof fn lemma_collect_expr_distinct(e: Expr, acc: Seq<Seq<char>>)
    requires
        acc.no_duplicates(),
    ensures
        spec_collect_expr(e, acc).no_duplicates(),
    decreases e, 2int,
{
    match e {
        Expr::Ident(name) => {
            if !(name@ == "z"@ || spec_collected_has(acc, name@)) {
                assert forall|i: int, j: int|
                    0 <= i < j < acc.push(name@).len() implies acc.push(name@)[i] != acc.push(
                    name@,
                )[j] by {
                    if j == acc.len() {
                        assert(!spec_collected_has(acc, name@));
                    }
                }
            }
        },
        Expr::Object(o) => {
            lemma_collect_props_distinct(o.props@, acc);
        },
        Expr::Array(a) => {
            lemma_collect_elems_distinct(a.elems@, acc);
        },
        Expr::Call(c) => {
            match c.callee {
                Callee::Expr(callee) => {
                    lemma_collect_expr_distinct(*callee, acc);
                    lemma_collect_args_distinct(c.args@, spec_collect_expr(*callee, acc));
                },
                Callee::Other => {
                    lemma_collect_args_distinct(c.args@, acc);
                },
            }
        },
        Expr::Member(m) => {
            lemma_collect_expr_distinct(*m.obj, acc);
        },
        Expr::Paren(paren) => {
            lemma_collect_expr_distinct(*paren.expr, acc);
        },
        _ => {},
    }
}

/// As `lemma_collect_expr_distinct`, for an object literal's properties.
pub proof fn lemma_collect_props_distinct(props: Seq<PropOrSpread>, acc: Seq<Seq<char>>)
    requires
        acc.no_duplicates(),
    ensures
        spec_collect_props(props, acc).no_duplicates(),
    decreases props, 0int,
{
    if props.len() > 0 {
        let mid = match props[0] {
            PropOrSpread::Prop(Prop::KeyValue(kv)) => spec_collect_expr(kv.value, acc),
            _ => acc,
        };
        match props[0] {
            PropOrSpread::Prop(Prop::KeyValue(kv)) => {
                lemma_collect_expr_distinct(kv.value, acc);
            },
            _ => {},
        }
        lemma_collect_props_distinct(props.skip(1), mid);
    }
}

/// As `lemma_collect_expr_distinct`, for an array literal's elements.
pub proof fn lemma_collect_elems_distinct(
    elems: Seq<Option<crate::ast::ExprOrSpread>>,
    acc: Seq<Seq<char>>,
)
    requires
        acc.no_duplicates(),
    ensures
        spec_collect_elems(elems, acc).no_duplicates(),
    decreases elems, 0int,
{
    if elems.len() > 0 {
        let mid = match elems[0] {
            Some(element) => spec_collect_expr(element.expr, acc),
            None => acc,
        };
        match elems[0] {
            Some(element) => {
                lemma_collect_expr_distinct(element.expr, acc);
            },
            None => {},
        }
        lemma_collect_elems_distinct(elems.skip(1), mid);
    }
}

/// As `lemma_collect_expr_distinct`, for a call's arguments.
pub proof fn lemma_collect_args_distinct(args: Seq<crate::ast::ExprOrSpread>, acc: Seq<Seq<char>>)
    requires
        acc.no_duplicates(),
    ensures
        spec_collect_args(args, acc).no_duplicates(),
    decreases args, 0int,
{
    if args.len() > 0 {
        lemma_collect_expr_distinct(args[0].expr, acc);
        lemma_collect_args_distinct(args.skip(1), spec_collect_expr(args[0].expr, acc));
    }
}

/// The identifier names appearing inside a schema expression, in first
/// occurrence order without repeats: bare identifiers, member-access and
/// call bases, elements and arguments are searched; the validator
/// namespace `z` is skipped.
#[verifier::loop_isolation(false)]
pub fn collect_schema_identifiers(expression: &Expr) -> (r: Vec<String>)
    ensures
        r@.map_values(|s: String| s@) == spec_collect_expr(
            *expression,
            Seq::<Seq<char>>::empty(),
        ),
{
    let mut names: Vec<String> = Vec::new();
    proof {
        assert(names@.map_values(|s: String| s@) =~= Seq::<Seq<char>>::empty());
    }
    collect_into(expression, &mut names);
    names
}

/// Walks one expression, appending its new identifier names to `names`.
#[verifier::loop_isolation(false)]
pub(crate) fn collect_into(expression: &Expr, names: &mut Vec<String>)
    ensures
        final(names)@.map_values(|s: String| s@) == spec_collect_expr(
            *expression,
            old(names)@.map_values(|s: String| s@),
        ),
    decreases *expression,
{
    proof {
        broadcast use vstd::std_specs::vec::axiom_vec_index_decreases;

    }
    let ghost acc0 = old(names)@.map_values(|s: String| s@);
    match expression {
        Expr::Ident(name) => {
            let seen = crate::flatten::name_in(names, name.as_str());
            proof {
                assert(seen == spec_collected_has(acc0, name@)) by {
                    if seen {
                        let k = choose|k: int|
                            0 <= k < names@.len() && (#[trigger] names@[k])@ == name@;
                        assert(acc0[k] == name@);
                    }
                    if spec_collected_has(acc0, name@) {
                        let k = choose|k: int| 0 <= k < acc0.len() && acc0[k] == name@;
                        assert(names@[k]@ == name@);
                    }
                }
            }
            if !str_eq(name.as_str(), "z") && !seen {
                names.push(str_to_string(name.as_str()));
                proof {
                    assert(names@.map_values(|s: String| s@) =~= acc0.push(name@));
                }
            }
        },
        Expr::Object(o) => {
            let mut i: usize = 0;
            proof {
                assert(o.props@.skip(0) =~= o.props@);
            }
            while i < o.props.len()
                invariant
                    i <= o.props@.len(),
                    spec_collect_props(o.props@, acc0) == spec_collect_props(
                        o.props@.skip(i as int),
                        names@.map_values(|s: String| s@),
                    ),
                decreases o.props@.len() - i,
            {
                proof {
                    assert(o.props@.skip(i as int)[0] == o.props@[i as int]);
                    assert(o.props@.skip(i as int).skip(1) =~= o.props@.skip(i as int + 1));
                }
                match &o.props[i] {
                    PropOrSpread::Prop(Prop::KeyValue(kv)) => {
                        proof {
                            assert(decreases_to!(*expression => *o));
                            assert(decreases_to!(*o => o.props));
                            assert(decreases_to!(o.props => o.props[i as int]));
                            assert(decreases_to!(o.props[i as int] => kv.value));
                        }
                        collect_into(&kv.value, names);
                    },
                    _ => {},
                }
                i += 1;
            }
            proof {
                assert(o.props@.skip(o.props@.len() as int)
                    =~= Seq::<PropOrSpread>::empty());
            }
        },
        Expr::Array(a) => {
            let mut i: usize = 0;
            proof {
                assert(a.elems@.skip(0) =~= a.elems@);
            }
            while i < a.elems.len()
                invariant
                    i <= a.elems@.len(),
                    spec_collect_elems(a.elems@, acc0) == spec_collect_elems(
                        a.elems@.skip(i as int),
                        names@.map_values(|s: String| s@),
                    ),
                decreases a.elems@.len() - i,
            {
                proof {
                    assert(a.elems@.skip(i as int)[0] == a.elems@[i as int]);
                    assert(a.elems@.skip(i as int).skip(1) =~= a.elems@.skip(i as int + 1));
                }
                match &a.elems[i] {
                    Some(element) => {
                        proof {
                            assert(decreases_to!(*expression => *a));
                            assert(decreases_to!(*a => a.elems));
                            assert(decreases_to!(a.elems => a.elems[i as int]));
                            assert(decreases_to!(a.elems[i as int] => element.expr));
                        }
                        collect_into(&element.expr, names);
                    },
                    None => {},
                }
                i += 1;
            }
            proof {
                assert(a.elems@.skip(a.elems@.len() as int) =~= Seq::<
                    Option<crate::ast::ExprOrSpread>,
                >::empty());
            }
        },
        Expr::Call(c) => {
            match &c.callee {
                Callee::Expr(callee) => {
                    proof {
                        assert(decreases_to!(*expression => *c));
                        assert(decreases_to!(*c => c.callee));
                        assert(decreases_to!(c.callee => **callee));
                    }
                    collect_into(callee, names);
                },
                Callee::Other => {},
            }
            let ghost acc1 = names@.map_values(|s: String| s@);
            let mut i: usize = 0;
            proof {
                assert(c.args@.skip(0) =~= c.args@);
            }
            while i < c.args.len()
                invariant
                    i <= c.args@.len(),
                    spec_collect_args(c.args@, acc1) == spec_collect_args(
                        c.args@.skip(i as int),
                        names@.map_values(|s: String| s@),
                    ),
                decreases c.args@.len() - i,
            {
                proof {
                    assert(c.args@.skip(i as int)[0] == c.args@[i as int]);
                    assert(c.args@.skip(i as int).skip(1) =~= c.args@.skip(i as int + 1));
                    assert(decreases_to!(*expression => *c));
                    assert(decreases_to!(*c => c.args));
                    assert(decreases_to!(c.args => c.args[i as int]));
                    assert(decreases_to!(c.args[i as int] => c.args[i as int].expr));
                }
                let element = &c.args[i];
                collect_into(&element.expr, names);
                i += 1;
            }
            proof {
                assert(c.args@.skip(c.args@.len() as int) =~= Seq::<
                    crate::ast::ExprOrSpread,
                >::empty());
            }
        },
        Expr::Member(m) => {
            proof {
                assert(decreases_to!(*expression => *m));
                assert(decreases_to!(*m => *m.obj));
            }
            collect_into(&m.obj, names);
        },
        Expr::Paren(p) => {
            proof {
                assert(decreases_to!(*expression => *p));
                assert(decreases_to!(*p => *p.expr));
            }
            collect_into(&p.expr, names);
        },
        _ => {},
    }
}

} // verus!
