//! The context extractor: finds a context class's `create` method,
//! follows straight-line code to its return expression, and renders the
//! returned shape as a structural type string.

use vstd::prelude::*;

use crate::ast::{
    Class, ClassMember, ClassMethod, Expr, Lit, ModuleItem, Prop, PropName, PropOrSpread, Stmt,
};
use crate::project::ParsedFile;
use crate::text::{concat2, str_eq, str_to_string};

verus! {

/// A context class's rendered shape: its name, the file it lives in, and
/// the structural type of what `create` returns.
#[derive(Debug, Clone, PartialEq, Eq)]
pub struct ContextInfo {
    pub class_name: String,
    pub file_path: String,
    pub return_type: String,
}

/// The primitive type name a literal renders as.
pub open spec fn spec_literal_type(l: Lit) -> Seq<char> {
    match l {
        Lit::Str(_) => "string"@,
        Lit::JsxText(_) => "string"@,
        Lit::Num(_) => "number"@,
        Lit::Bool(_) => "boolean"@,
        Lit::Null => "null"@,
        Lit::BigInt(_) => "bigint"@,
        Lit::Regex(_) => "RegExp"@,
    }
}

/// The primitive type name a literal renders as.
pub fn literal_type_of(l: &Lit) -> (r: &'static str)
    ensures
        r@ == spec_literal_type(*l),
{
    match l {
        Lit::Str(_) => "string",
        Lit::JsxText(_) => "string",
        Lit::Num(_) => "number",
        Lit::Bool(_) => "boolean",
        Lit::Null => "null",
        Lit::BigInt(_) => "bigint",
        Lit::Regex(_) => "RegExp",
    }
}


/// The first method of the class members from `i` on whose name — an
/// identifier or string key — is the given one.
pub open spec fn spec_find_method_from(
    members: Seq<ClassMember>,
    name: Seq<char>,
    i: int,
) -> Option<ClassMethod>
    decreases members.len() - i,
{
    if i < 0 || i >= members.len() {
        None
    } else {
        match members[i] {
            ClassMember::Method(m) => match crate::decorator::spec_prop_key_name(m.key) {
                Some(k) => if k == name {
                    Some(m)
                } else {
                    spec_find_method_from(members, name, i + 1)
                },
                None => spec_find_method_from(members, name, i + 1),
            },
            _ => spec_find_method_from(members, name, i + 1),
        }
    }
}

/// The first return expression among the statements, following blocks,
/// `if` branches and `try` bodies, in source order.
pub open spec fn spec_return_in_stmts(stmts: Seq<Stmt>) -> Option<Expr>
    decreases stmts, 1int,
{
    if stmts.len() == 0 {
        None
    } else {
        match spec_return_in_stmt(stmts[0]) {
            Some(e) => Some(e),
            None => spec_return_in_stmts(stmts.skip(1)),
        }
    }
}

/// The first return expression reachable inside one statement.
pub open spec fn spec_return_in_stmt(s: Stmt) -> Option<Expr>
    decreases s, 2int,
{
    match s {
        Stmt::Return(Some(e)) => Some(e),
        Stmt::Block(stmts) => spec_return_in_stmts(stmts@),
        Stmt::If { cons, alt } => match spec_return_in_stmt(*cons) {
            Some(e) => Some(e),
            None => match alt {
                Some(a) => spec_return_in_stmt(*a),
                None => None,
            },
        },
        Stmt::Try { block, handler } => match spec_return_in_stmts(block@) {
            Some(e) => Some(e),
            None => match handler {
                Some(h) => spec_return_in_stmts(h@),
                None => None,
            },
        },
        _ => None,
    }
}

/// The rendered properties of an object shape from the accumulated text
/// and separator state on: each named key-value adds `key: type`, each
/// shorthand adds `key: unknown`, separated by `; `.
pub open spec fn spec_render_props(
    props: Seq<PropOrSpread>,
    acc: Seq<char>,
    first: bool,
) -> Seq<char>
    decreases props, 0int,
{
    if props.len() == 0 {
        acc
    } else {
        let sep = if first {
            acc
        } else {
            acc + "; "@
        };
        match props[0] {
            PropOrSpread::Prop(Prop::KeyValue(kv)) => match crate::decorator::spec_prop_key_name(
                kv.key,
            ) {
                Some(k) => spec_render_props(
                    props.skip(1),
                    sep + k + ": "@ + spec_type_of_expr(kv.value),
                    false,
                ),
                None => spec_render_props(props.skip(1), acc, first),
            },
            PropOrSpread::Prop(Prop::Shorthand(name)) => spec_render_props(
                props.skip(1),
                sep + name@ + ": unknown"@,
                false,
            ),
            _ => spec_render_props(props.skip(1), acc, first),
        }
    }
}

/// An expression's shape rendered as a type: literals map to primitive
/// names, object literals to inline structural types, arrays to
/// `unknown[]`, and everything else to `unknown`.
pub open spec fn spec_type_of_expr(e: Expr) -> Seq<char>
    decreases e, 2int,
{
    match e {
        Expr::Object(o) => "{ "@ + spec_render_props(o.props@, Seq::empty(), true) + " }"@,
        Expr::Array(_) => "unknown[]"@,
        Expr::Lit(l, _t) => spec_literal_type(l),
        _ => "unknown"@,
    }
}

/// The rendered context type of a class: what the first return of its
/// `create` method renders as, when class, method, body and return all
/// exist.
pub open spec fn spec_context_type_of_class(class: Class) -> Option<Seq<char>> {
    match spec_find_method_from(class.body@, "create"@, 0) {
        Some(m) => match m.body {
            Some(stmts) => match spec_return_in_stmts(stmts@) {
                Some(e) => Some(spec_type_of_expr(e)),
                None => None,
            },
            None => None,
        },
        None => None,
    }
}

/// The context type the file yields for a class name: that of the first
/// class declaration of that name, from `i` on, whose shape renders.
pub open spec fn spec_context_info_from(
    body: Seq<ModuleItem>,
    name: Seq<char>,
    i: int,
) -> Option<Seq<char>>
    decreases body.len() - i,
{
    if i < 0 || i >= body.len() {
        None
    } else {
        match body[i] {
            ModuleItem::ClassDecl { name: n, class, exported: _ } => if n@ == name {
                match spec_context_type_of_class(class) {
                    Some(ty) => Some(ty),
                    None => spec_context_info_from(body, name, i + 1),
                }
            } else {
                spec_context_info_from(body, name, i + 1)
            },
            _ => spec_context_info_from(body, name, i + 1),
        }
    }
}

/// Extracts context information; it carries no state.
#[derive(Debug, Clone, PartialEq, Eq)]
pub struct ContextParser {}

impl ContextParser {
    /// A context parser.
    pub fn new() -> (r: ContextParser) {
        ContextParser {}
    }

    /// Extracts the context info of the named class: finds the class among
    /// the file's plain and exported class declarations, its `create`
    /// method, and the first return expression reachable through
    /// straight-line code, blocks, `if` branches and `try` bodies; the
    /// returned expression's shape is rendered as a structural type.
    /// Absence at any step yields nothing.
    #[verifier::loop_isolation(false)]
    pub fn extract_context(&self, parsed_file: &ParsedFile, context_class_name: &str) -> (r:
        Option<ContextInfo>)
        ensures
            match r {
                Some(info) => info.class_name@ == context_class_name@ && info.file_path@
                    == parsed_file.file_path@ && spec_context_info_from(
                    parsed_file.module.body@,
                    context_class_name@,
                    0,
                ) == Some(info.return_type@),
                None => spec_context_info_from(
                    parsed_file.module.body@,
                    context_class_name@,
                    0,
                ) is None,
            },
    {
        let body = &parsed_file.module.body;
        let mut i: usize = 0;
        while i < body.len()
            invariant
                i <= body@.len(),
                spec_context_info_from(body@, context_class_name@, 0)
                    == spec_context_info_from(body@, context_class_name@, i as int),
            decreases body@.len() - i,
        {
            let class = match &body[i] {
                ModuleItem::ClassDecl { name, class, exported: _ } => {
                    if str_eq(name.as_str(), context_class_name) {
                        Some(class)
                    } else {
                        None
                    }
                },
                _ => None,
            };
            match class {
                Some(class) => {
                    match self.extract_from_class(class) {
                        Some(return_type) => {
                            return Some(
                                ContextInfo {
                                    class_name: str_to_string(context_class_name),
                                    file_path: str_to_string(parsed_file.file_path.as_str()),
                                    return_type,
                                },
                            );
                        },
                        None => {},
                    }
                },
                None => {},
            }
            i += 1;
        }
        None
    }

    fn extract_from_class(&self, class: &Class) -> (r: Option<String>)
        ensures
            match r {
                Some(ty) => spec_context_type_of_class(*class) == Some(ty@),
                None => spec_context_type_of_class(*class) is None,
            },
    {
        let method = match find_method(class, "create") {
            Some(m) => m,
            None => {
                return None;
            },
        };
        let stmts = match &method.body {
            Some(s) => s,
            None => {
                return None;
            },
        };
        match find_return_in_stmts(stmts) {
            Some(e) => Some(expression_to_type_string(e)),
            None => None,
        }
    }
}

/// Finds a class's method with the given identifier or string name.
#[verifier::loop_isolation(false)]
pub(crate) fn find_method<'a>(class: &'a Class, name: &str) -> (r: Option<&'a ClassMethod>)
    ensures
        match r {
            Some(m) => spec_find_method_from(class.body@, name@, 0) == Some(*m),
            None => spec_find_method_from(class.body@, name@, 0) is None,
        },
{
    let mut i: usize = 0;
    while i < class.body.len()
        invariant
            i <= class.body@.len(),
            spec_find_method_from(class.body@, name@, 0) == spec_find_method_from(
                class.body@,
                name@,
                i as int,
            ),
        decreases class.body@.len() - i,
    {
        match &class.body[i] {
            ClassMember::Method(method) => {
                let matches_name = match &method.key {
                    PropName::Ident(n) => str_eq(n.as_str(), name),
                    PropName::Str(v) => str_eq(v.as_str(), name),
                    _ => false,
                };
                if matches_name {
                    return Some(method);
                }
            },
            _ => {},
        }
        i += 1;
    }
    None
}

/// Finds the first return expression among the statements, following
/// blocks, `if` branches and `try` bodies.
#[verifier::loop_isolation(false)]
pub(crate) fn find_return_in_stmts<'a>(stmts: &'a Vec<Stmt>) -> (r: Option<&'a Expr>)
    ensures
        match r {
            Some(e) => spec_return_in_stmts(stmts@) == Some(*e),
            None => spec_return_in_stmts(stmts@) is None,
        },
    decreases *stmts,
{
    let mut i: usize = 0;
    proof {
        assert(stmts@.skip(0) =~= stmts@);
    }
    while i < stmts.len()
        invariant
            i <= stmts@.len(),
            spec_return_in_stmts(stmts@) == spec_return_in_stmts(stmts@.skip(i as int)),
        decreases stmts@.len() - i,
    {
        proof {
            vstd::std_specs::vec::axiom_vec_index_decreases(*stmts, i as int);
            assert(stmts@.skip(i as int)[0] == stmts@[i as int]);
        }
        match find_return_in_stmt(&stmts[i]) {
            Some(e) => {
                return Some(e);
            },
            None => {},
        }
        proof {
            assert(stmts@.skip(i as int).skip(1) =~= stmts@.skip(i + 1));
        }
        i += 1;
    }
    proof {
        assert(stmts@.skip(stmts@.len() as int) =~= Seq::<Stmt>::empty());
    }
    None
}

#[verifier::loop_isolation(false)]
fn find_return_in_stmt<'a>(stmt: &'a Stmt) -> (r: Option<&'a Expr>)
    ensures
        match r {
            Some(e) => spec_return_in_stmt(*stmt) == Some(*e),
            None => spec_return_in_stmt(*stmt) is None,
        },
    decreases *stmt,
{
    match stmt {
        Stmt::Return(Some(e)) => Some(e),
        Stmt::Block(stmts) => {
            proof {
                assert(decreases_to!(*stmt => *stmts));
            }
            find_return_in_vec(stmts)
        },
        Stmt::If { cons, alt } => {
            proof {
                assert(decreases_to!(*stmt => **cons));
            }
            match find_return_in_stmt(cons) {
                Some(e) => Some(e),
                None => {
                    match alt {
                        Some(alt_stmt) => {
                            proof {
                                assert(decreases_to!(*stmt => **alt_stmt));
                            }
                            find_return_in_stmt(alt_stmt)
                        },
                        None => None,
                    }
                },
            }
        },
        Stmt::Try { block, handler } => {
            proof {
                assert(decreases_to!(*stmt => *block));
            }
            match find_return_in_vec(block) {
                Some(e) => Some(e),
                None => {
                    match handler {
                        Some(handler_stmts) => {
                            proof {
                                assert(decreases_to!(*stmt => *handler_stmts));
                            }
                            find_return_in_vec(handler_stmts)
                        },
                        None => None,
                    }
                },
            }
        },
        _ => None,
    }
}

#[verifier::loop_isolation(false)]
fn find_return_in_vec<'a>(stmts: &'a Vec<Stmt>) -> (r: Option<&'a Expr>)
    ensures
        match r {
            Some(e) => spec_return_in_stmts(stmts@) == Some(*e),
            None => spec_return_in_stmts(stmts@) is None,
        },
    decreases *stmts,
{
    let mut i: usize = 0;
    proof {
        assert(stmts@.skip(0) =~= stmts@);
    }
    while i < stmts.len()
        invariant
            i <= stmts@.len(),
            spec_return_in_stmts(stmts@) == spec_return_in_stmts(stmts@.skip(i as int)),
        decreases stmts@.len() - i,
    {
        proof {
            vstd::std_specs::vec::axiom_vec_index_decreases(*stmts, i as int);
            assert(stmts@.skip(i as int)[0] == stmts@[i as int]);
        }
        match find_return_in_stmt(&stmts[i]) {
            Some(e) => {
                return Some(e);
            },
            None => {},
        }
        proof {
            assert(stmts@.skip(i as int).skip(1) =~= stmts@.skip(i + 1));
        }
        i += 1;
    }
    proof {
        assert(stmts@.skip(stmts@.len() as int) =~= Seq::<Stmt>::empty());
    }
    None
}

/// Renders an expression's shape as a type: literals map to primitive
/// names, object literals to inline structural types, arrays to
/// `unknown[]`, and everything else to `unknown`.
#[verifier::loop_isolation(false)]
pub(crate) fn expression_to_type_string(expression: &Expr) -> (r: String)
    ensures
        r@ == spec_type_of_expr(*expression),
    decreases *expression,
{
    match expression {
        Expr::Object(object) => {
            let mut properties = String::new();
            let mut first = true;
            let mut i: usize = 0;
            proof {
                assert(properties@ =~= Seq::<char>::empty());
                assert(object.props@.skip(0) =~= object.props@);
            }
            while i < object.props.len()
                invariant
                    i <= object.props@.len(),
                    spec_render_props(object.props@, Seq::empty(), true) == spec_render_props(
                        object.props@.skip(i as int),
                        properties@,
                        first,
                    ),
                decreases object.props@.len() - i,
            {
                proof {
                    assert(object.props@.skip(i as int)[0] == object.props@[i as int]);
                    assert(object.props@.skip(i as int).skip(1) =~= object.props@.skip(i + 1));
                }
                match &object.props[i] {
                    PropOrSpread::Prop(Prop::KeyValue(kv)) => {
                        let key = match &kv.key {
                            PropName::Ident(n) => Some(str_to_string(n.as_str())),
                            PropName::Str(v) => Some(str_to_string(v.as_str())),
                            _ => None,
                        };
                        match key {
                            Some(name) => {
                                proof {
                                    broadcast use
                                        vstd::std_specs::vec::axiom_vec_index_decreases;

                                    assert(decreases_to!(*expression => *object));
                                    assert(decreases_to!(*object => object.props));
                                    assert(decreases_to!(object.props => object.props[
                                    i as int]));
                                    assert(decreases_to!(object.props[i as int] => kv.value));
                                }
                                let value_type = expression_to_type_string(&kv.value);
                                if !first {
                                    properties.append("; ");
                                }
                                properties.append(name.as_str());
                                properties.append(": ");
                                properties.append(value_type.as_str());
                                first = false;
                            },
                            None => {},
                        }
                    },
                    PropOrSpread::Prop(Prop::Shorthand(name)) => {
                        if !first {
                            properties.append("; ");
                        }
                        properties.append(name.as_str());
                        properties.append(": unknown");
                        first = false;
                    },
                    _ => {},
                }
                i += 1;
            }
            proof {
                assert(object.props@.skip(object.props@.len() as int) =~= Seq::<
                    PropOrSpread,
                >::empty());
            }
            let mut r = concat2("{ ", properties.as_str());
            r.append(" }");
            proof {
                assert(r@ == "{ "@ + properties@ + " }"@);
            }
            r
        },
        Expr::Array(_) => str_to_string("unknown[]"),
        Expr::Lit(l, _text) => str_to_string(literal_type_of(l)),
        _ => str_to_string("unknown"),
    }
}

/// Extracts the context info of the named class with a fresh parser.
pub fn extract_context(parsed_file: &ParsedFile, context_class_name: &str) -> (r: Option<
    ContextInfo,
>)
    ensures
        match r {
            Some(info) => info.class_name@ == context_class_name@ && info.file_path@
                == parsed_file.file_path@ && spec_context_info_from(
                parsed_file.module.body@,
                context_class_name@,
                0,
            ) == Some(info.return_type@),
            None => spec_context_info_from(
                parsed_file.module.body@,
                context_class_name@,
                0,
            ) is None,
        },
{
    ContextParser::new().extract_context(parsed_file, context_class_name)
}

} // verus!
