//! The middleware extractor: finds a middleware class's `use` method,
//! locates its call to the framework's continue callback, and reads the
//! `ctx` object that call passes on, with a best-effort type for each
//! property.

use vstd::prelude::*;

use crate::ast::{
    Callee, Class, ClassMember, Decorator, Expr, MemberProp, ModuleItem, Prop, PropName,
    PropOrSpread, Stmt,
};
use crate::context::{find_method, literal_type_of};
use crate::project::ParsedFile;
use crate::text::{str_eq, str_to_string};

verus! {

/// A middleware class's contribution: its name, its file, and the
/// properties its continue call adds to the context.
#[derive(Debug, Clone, PartialEq, Eq)]
pub struct MiddlewareInfo {
    pub class_name: String,
    pub file_path: String,
    pub context_properties: Vec<ContextProperty>,
}

/// One property of the forwarded context, with its inferred type text.
#[derive(Debug, Clone, PartialEq, Eq)]
pub struct ContextProperty {
    pub name: String,
    pub type_string: String,
}


/// The view of a context property: its name and type text.
pub open spec fn spec_prop_view(p: ContextProperty) -> (Seq<char>, Seq<char>) {
    (p.name@, p.type_string@)
}

/// The views of a property list.
pub open spec fn spec_props_view(v: Seq<ContextProperty>) -> Seq<(Seq<char>, Seq<char>)> {
    v.map_values(|p: ContextProperty| spec_prop_view(p))
}

/// The best-effort type a forwarded value renders as.
pub open spec fn spec_infer_type(e: Expr) -> Seq<char> {
    match e {
        Expr::Lit(l, _t) => crate::context::spec_literal_type(l),
        Expr::Object(o) => o.text@,
        Expr::Array(_) => "unknown[]"@,
        Expr::Arrow(_) => "Function"@,
        Expr::FnExpr(_) => "Function"@,
        Expr::Ident(name) => name@,
        _ => "unknown"@,
    }
}

/// Whether a call is `opts.next(...)`.
pub open spec fn spec_is_opts_next(c: crate::ast::CallExpr) -> bool {
    match c.callee {
        Callee::Expr(callee) => match *callee {
            Expr::Member(m) => (match *m.obj {
                Expr::Ident(name) => name@ == "opts"@,
                _ => false,
            }) && (match m.prop {
                MemberProp::Ident(pr) => pr@ == "next"@,
                _ => false,
            }),
            _ => false,
        },
        Callee::Other => false,
    }
}

/// The first `opts.next(...)` call among the statements, following
/// returns, expression statements and blocks.
pub open spec fn spec_next_call_in_stmts(stmts: Seq<Stmt>) -> Option<crate::ast::CallExpr>
    decreases stmts, 1int,
{
    if stmts.len() == 0 {
        None
    } else {
        match spec_next_call_in_stmt(stmts[0]) {
            Some(c) => Some(c),
            None => spec_next_call_in_stmts(stmts.skip(1)),
        }
    }
}

/// The first `opts.next(...)` call reachable inside one statement.
pub open spec fn spec_next_call_in_stmt(s: Stmt) -> Option<crate::ast::CallExpr>
    decreases s, 2int,
{
    match s {
        Stmt::Return(Some(e)) => spec_next_call_in_expr(e),
        Stmt::Expr(e) => spec_next_call_in_expr(e),
        Stmt::Block(stmts) => spec_next_call_in_stmts(stmts@),
        _ => None,
    }
}

/// The first `opts.next(...)` call reachable inside one expression: the
/// call itself, or one among a call's arguments, an await, or parentheses.
pub open spec fn spec_next_call_in_expr(e: Expr) -> Option<crate::ast::CallExpr>
    decreases e, 2int,
{
    match e {
        Expr::Call(c) => if spec_is_opts_next(c) {
            Some(c)
        } else {
            spec_next_call_in_args(c.args@)
        },
        Expr::AwaitExpr(inner, _t) => spec_next_call_in_expr(*inner),
        Expr::Paren(paren) => spec_next_call_in_expr(*paren.expr),
        _ => None,
    }
}

/// The first `opts.next(...)` call among a call's arguments.
pub open spec fn spec_next_call_in_args(args: Seq<crate::ast::ExprOrSpread>) -> Option<
    crate::ast::CallExpr,
>
    decreases args, 0int,
{
    if args.len() == 0 {
        None
    } else {
        match spec_next_call_in_expr(args[0].expr) {
            Some(c) => Some(c),
            None => spec_next_call_in_args(args.skip(1)),
        }
    }
}

/// The first `ctx` property with an object value among an object's
/// properties from `i` on.
pub open spec fn spec_ctx_object_from(props: Seq<PropOrSpread>, i: int) -> Option<
    crate::ast::ObjectLit,
>
    decreases props.len() - i,
{
    if i < 0 || i >= props.len() {
        None
    } else {
        match props[i] {
            PropOrSpread::Prop(Prop::KeyValue(kv)) => match crate::decorator::spec_prop_key_name(
                kv.key,
            ) {
                Some(k) => if k == "ctx"@ {
                    match kv.value {
                        Expr::Object(o) => Some(o),
                        _ => spec_ctx_object_from(props, i + 1),
                    }
                } else {
                    spec_ctx_object_from(props, i + 1)
                },
                None => spec_ctx_object_from(props, i + 1),
            },
            _ => spec_ctx_object_from(props, i + 1),
        }
    }
}

/// The forwarded properties read from the `ctx` object's properties from
/// `i` on: each named key-value contributes its name with the inferred
/// type, each shorthand its name with `unknown`.
pub open spec fn spec_ctx_props_from(props: Seq<PropOrSpread>, i: int) -> Seq<
    (Seq<char>, Seq<char>),
>
    decreases props.len() - i,
{
    if i < 0 || i >= props.len() {
        Seq::empty()
    } else {
        let rest = spec_ctx_props_from(props, i + 1);
        match props[i] {
            PropOrSpread::Prop(Prop::KeyValue(kv)) => match crate::decorator::spec_prop_key_name(
                kv.key,
            ) {
                Some(k) => seq![(k, spec_infer_type(kv.value))] + rest,
                None => rest,
            },
            PropOrSpread::Prop(Prop::Shorthand(name)) => seq![(name@, "unknown"@)] + rest,
            _ => rest,
        }
    }
}

/// The properties an `opts.next(...)` call forwards: those of the `ctx`
/// object inside its first argument, when that argument is an object and
/// carries one; else none.
pub open spec fn spec_call_ctx_props(c: crate::ast::CallExpr) -> Seq<(Seq<char>, Seq<char>)> {
    if c.args@.len() == 0 {
        Seq::empty()
    } else {
        match c.args@[0].expr {
            Expr::Object(o) => match spec_ctx_object_from(o.props@, 0) {
                Some(ctx) => spec_ctx_props_from(ctx.props@, 0),
                None => Seq::empty(),
            },
            _ => Seq::empty(),
        }
    }
}

/// The forwarded properties of a middleware class: those of the first
/// `opts.next(...)` call in its `use` method, none when the method has no
/// such call, nothing when class shape or method is missing.
pub open spec fn spec_middleware_props_of_class(class: Class) -> Option<
    Seq<(Seq<char>, Seq<char>)>,
> {
    match crate::context::spec_find_method_from(class.body@, "use"@, 0) {
        Some(m) => match m.body {
            Some(stmts) => Some(
                match spec_next_call_in_stmts(stmts@) {
                    Some(c) => spec_call_ctx_props(c),
                    None => Seq::empty(),
                },
            ),
            None => None,
        },
        None => None,
    }
}

/// The middleware properties the file yields for a class name: those of
/// the first class declaration of that name, from `i` on, that yields any.
pub open spec fn spec_middleware_info_from(
    body: Seq<ModuleItem>,
    name: Seq<char>,
    i: int,
) -> Option<Seq<(Seq<char>, Seq<char>)>>
    decreases body.len() - i,
{
    if i < 0 || i >= body.len() {
        None
    } else {
        match body[i] {
            ModuleItem::ClassDecl { name: n, class, exported: _ } => if n@ == name {
                match spec_middleware_props_of_class(class) {
                    Some(props) => Some(props),
                    None => spec_middleware_info_from(body, name, i + 1),
                }
            } else {
                spec_middleware_info_from(body, name, i + 1)
            },
            _ => spec_middleware_info_from(body, name, i + 1),
        }
    }
}

/// Extracts middleware information; it carries no state.
#[derive(Debug, Clone, PartialEq, Eq)]
pub struct MiddlewareParser {}

impl MiddlewareParser {
    /// A middleware parser.
    pub fn new() -> (r: MiddlewareParser) {
        MiddlewareParser {}
    }

    /// Extracts the middleware info of the named class: finds the class
    /// among the file's plain and exported class declarations, its `use`
    /// method, the first `opts.next(...)` call reachable through returns,
    /// expression statements and blocks, and the `ctx` object of that
    /// call's first argument. A class without such a call yields an info
    /// with no properties; a missing class or method yields nothing.
    #[verifier::loop_isolation(false)]
    pub fn extract_middleware(&self, parsed_file: &ParsedFile, middleware_class_name: &str) -> (r:
        Option<MiddlewareInfo>)
        ensures
            match r {
                Some(info) => info.class_name@ == middleware_class_name@ && info.file_path@
                    == parsed_file.file_path@ && spec_middleware_info_from(
                    parsed_file.module.body@,
                    middleware_class_name@,
                    0,
                ) == Some(spec_props_view(info.context_properties@)),
                None => spec_middleware_info_from(
                    parsed_file.module.body@,
                    middleware_class_name@,
                    0,
                ) is None,
            },
    {
        let body = &parsed_file.module.body;
        let mut i: usize = 0;
        while i < body.len()
            invariant
                i <= body@.len(),
                spec_middleware_info_from(body@, middleware_class_name@, 0)
                    == spec_middleware_info_from(body@, middleware_class_name@, i as int),
            decreases body@.len() - i,
        {
            let class = match &body[i] {
                ModuleItem::ClassDecl { name, class, exported: _ } => {
                    if str_eq(name.as_str(), middleware_class_name) {
                        Some(class)
                    } else {
                        None
                    }
                },
                _ => None,
            };
            match class {
                Some(class) => {
                    match self.extract_from_class(class) {
                        Some(context_properties) => {
                            return Some(
                                MiddlewareInfo {
                                    class_name: str_to_string(middleware_class_name),
                                    file_path: str_to_string(parsed_file.file_path.as_str()),
                                    context_properties,
                                },
                            );
                        },
                        None => {},
                    }
                },
                None => {},
            }
            i += 1;
        }
        None
    }

    fn extract_from_class(&self, class: &Class) -> (r: Option<Vec<ContextProperty>>)
        ensures
            match r {
                Some(props) => spec_middleware_props_of_class(*class) == Some(
                    spec_props_view(props@),
                ),
                None => spec_middleware_props_of_class(*class) is None,
            },
    {
        let method = match find_method(class, "use") {
            Some(m) => m,
            None => {
                return None;
            },
        };
        let stmts = match &method.body {
            Some(s) => s,
            None => {
                return None;
            },
        };
        match find_next_call_in_stmts(stmts) {
            Some(call) => Some(extract_context_properties(call)),
            None => Some(Vec::new()),
        }
    }
}

fn is_opts_next_call(call: &crate::ast::CallExpr) -> (r: bool)
    ensures
        r == spec_is_opts_next(*call),
{
    match &call.callee {
        Callee::Expr(callee) => {
            match &**callee {
                Expr::Member(member) => {
                    let obj_is_opts = match &*member.obj {
                        Expr::Ident(name) => str_eq(name.as_str(), "opts"),
                        _ => false,
                    };
                    let prop_is_next = match &member.prop {
                        MemberProp::Ident(p) => str_eq(p.as_str(), "next"),
                        _ => false,
                    };
                    obj_is_opts && prop_is_next
                },
                _ => false,
            }
        },
        Callee::Other => false,
    }
}

#[verifier::loop_isolation(false)]
fn find_next_call_in_stmts<'a>(stmts: &'a Vec<Stmt>) -> (r: Option<&'a crate::ast::CallExpr>)
    ensures
        match r {
            Some(c) => spec_next_call_in_stmts(stmts@) == Some(*c),
            None => spec_next_call_in_stmts(stmts@) is None,
        },
    decreases *stmts,
{
    let mut i: usize = 0;
    proof {
        assert(stmts@.skip(0) =~= stmts@);
    }
    while i < stmts.len()
        invariant
            i <= stmts@.len(),
            spec_next_call_in_stmts(stmts@) == spec_next_call_in_stmts(stmts@.skip(i as int)),
        decreases stmts@.len() - i,
    {
        proof {
            vstd::std_specs::vec::axiom_vec_index_decreases(*stmts, i as int);
            assert(stmts@.skip(i as int)[0] == stmts@[i as int]);
        }
        match find_next_call_in_stmt(&stmts[i]) {
            Some(call) => {
                return Some(call);
            },
            None => {},
        }
        proof {
            assert(stmts@.skip(i as int).skip(1) =~= stmts@.skip(i + 1));
        }
        i += 1;
    }
    proof {
        assert(stmts@.skip(stmts@.len() as int) =~= Seq::<Stmt>::empty());
    }
    None
}

#[verifier::loop_isolation(false)]
fn find_next_call_in_stmt<'a>(stmt: &'a Stmt) -> (r: Option<&'a crate::ast::CallExpr>)
    ensures
        match r {
            Some(c) => spec_next_call_in_stmt(*stmt) == Some(*c),
            None => spec_next_call_in_stmt(*stmt) is None,
        },
    decreases *stmt,
{
    match stmt {
        Stmt::Return(Some(e)) => find_next_call_in_expr(e),
        Stmt::Expr(e) => find_next_call_in_expr(e),
        Stmt::Block(stmts) => {
            proof {
                assert(decreases_to!(*stmt => *stmts));
            }
            find_next_call_in_stmts(stmts)
        },
        _ => None,
    }
}

#[verifier::loop_isolation(false)]
fn find_next_call_in_expr<'a>(expression: &'a Expr) -> (r: Option<&'a crate::ast::CallExpr>)
    ensures
        match r {
            Some(c) => spec_next_call_in_expr(*expression) == Some(*c),
            None => spec_next_call_in_expr(*expression) is None,
        },
    decreases *expression,
{
    match expression {
        Expr::Call(call) => {
            if is_opts_next_call(call) {
                return Some(call);
            }
            let mut i: usize = 0;
            proof {
                assert(call.args@.skip(0) =~= call.args@);
            }
            while i < call.args.len()
                invariant
                    i <= call.args@.len(),
                    spec_next_call_in_args(call.args@) == spec_next_call_in_args(
                        call.args@.skip(i as int),
                    ),
                decreases call.args@.len() - i,
            {
                proof {
                    broadcast use vstd::std_specs::vec::axiom_vec_index_decreases;

                    assert(decreases_to!(*expression => *call));
                    assert(decreases_to!(*call => call.args));
                    assert(decreases_to!(call.args => call.args[i as int]));
                    assert(decreases_to!(call.args[i as int] => call.args[i as int].expr));
                }
                proof {
                    assert(call.args@.skip(i as int)[0] == call.args@[i as int]);
                }
                match find_next_call_in_expr(&call.args[i].expr) {
                    Some(found) => {
                        return Some(found);
                    },
                    None => {},
                }
                proof {
                    assert(call.args@.skip(i as int).skip(1) =~= call.args@.skip(i + 1));
                }
                i += 1;
            }
            proof {
                assert(call.args@.skip(call.args@.len() as int) =~= Seq::<
                    crate::ast::ExprOrSpread,
                >::empty());
            }
            None
        },
        Expr::AwaitExpr(inner, _text) => {
            proof {
                assert(decreases_to!(*expression => **inner));
            }
            find_next_call_in_expr(inner)
        },
        Expr::Paren(paren) => {
            proof {
                assert(decreases_to!(*expression => *paren));
                assert(decreases_to!(*paren => *paren.expr));
            }
            find_next_call_in_expr(&paren.expr)
        },
        _ => None,
    }
}

#[verifier::loop_isolation(false)]
fn extract_context_properties(call: &crate::ast::CallExpr) -> (r: Vec<ContextProperty>)
    ensures
        spec_props_view(r@) == spec_call_ctx_props(*call),
{
    let mut properties: Vec<ContextProperty> = Vec::new();
    proof {
        assert(spec_props_view(properties@) =~= Seq::<(Seq<char>, Seq<char>)>::empty());
    }
    if call.args.len() == 0 {
        return properties;
    }
    let options_object = match &call.args[0].expr {
        Expr::Object(o) => o,
        _ => {
            return properties;
        },
    };
    let context_object = match find_ctx_property(options_object) {
        Some(o) => o,
        None => {
            return properties;
        },
    };
    let ghost full = spec_ctx_props_from(context_object.props@, 0);
    let mut i: usize = 0;
    proof {
        assert(spec_props_view(properties@) + full =~= full);
    }
    while i < context_object.props.len()
        invariant
            i <= context_object.props@.len(),
            full == spec_props_view(properties@) + spec_ctx_props_from(
                context_object.props@,
                i as int,
            ),
        decreases context_object.props@.len() - i,
    {
        let ghost before = spec_props_view(properties@);
        let ghost rest = spec_ctx_props_from(context_object.props@, i + 1);
        match &context_object.props[i] {
            PropOrSpread::Prop(Prop::KeyValue(kv)) => {
                let key = match &kv.key {
                    PropName::Ident(n) => Some(n),
                    PropName::Str(v) => Some(v),
                    _ => None,
                };
                match key {
                    Some(name) => {
                        let entry = ContextProperty {
                            name: str_to_string(name.as_str()),
                            type_string: infer_type_from_expression(&kv.value),
                        };
                        let ghost entry_view = spec_prop_view(entry);
                        properties.push(entry);
                        proof {
                            assert(spec_props_view(properties@) =~= before.push(entry_view));
                            assert(before + (seq![entry_view] + rest) =~= before.push(
                                entry_view,
                            ) + rest);
                        }
                    },
                    None => {},
                }
            },
            PropOrSpread::Prop(Prop::Shorthand(name)) => {
                let entry = ContextProperty {
                    name: str_to_string(name.as_str()),
                    type_string: str_to_string("unknown"),
                };
                let ghost entry_view = spec_prop_view(entry);
                properties.push(entry);
                proof {
                    assert(spec_props_view(properties@) =~= before.push(entry_view));
                    assert(before + (seq![entry_view] + rest) =~= before.push(entry_view)
                        + rest);
                }
            },
            _ => {},
        }
        i += 1;
    }
    proof {
        assert(full =~= spec_props_view(properties@) + Seq::<(Seq<char>, Seq<char>)>::empty());
        assert(spec_props_view(properties@) =~= full);
    }
    properties
}

#[verifier::loop_isolation(false)]
fn find_ctx_property<'a>(object: &'a crate::ast::ObjectLit) -> (r: Option<
    &'a crate::ast::ObjectLit,
>)
    ensures
        match r {
            Some(o) => spec_ctx_object_from(object.props@, 0) == Some(*o),
            None => spec_ctx_object_from(object.props@, 0) is None,
        },
{
    let mut i: usize = 0;
    while i < object.props.len()
        invariant
            i <= object.props@.len(),
            spec_ctx_object_from(object.props@, 0) == spec_ctx_object_from(
                object.props@,
                i as int,
            ),
        decreases object.props@.len() - i,
    {
        match &object.props[i] {
            PropOrSpread::Prop(Prop::KeyValue(kv)) => {
                let is_ctx = match &kv.key {
                    PropName::Ident(n) => str_eq(n.as_str(), "ctx"),
                    PropName::Str(v) => str_eq(v.as_str(), "ctx"),
                    _ => false,
                };
                if is_ctx {
                    match &kv.value {
                        Expr::Object(context_object) => {
                            return Some(context_object);
                        },
                        _ => {},
                    }
                }
            },
            _ => {},
        }
        i += 1;
    }
    None
}

/// The best-effort type of a forwarded value: literal types map to
/// primitive names, object literals keep their source text, arrays are
/// `unknown[]`, functions are `Function`, identifiers name themselves,
/// everything else is `unknown`.
pub fn infer_type_from_expression(expression: &Expr) -> (r: String)
    ensures
        r@ == spec_infer_type(*expression),
{
    match expression {
        Expr::Lit(l, _text) => str_to_string(literal_type_of(l)),
        Expr::Object(o) => str_to_string(o.text.as_str()),
        Expr::Array(_) => str_to_string("unknown[]"),
        Expr::Arrow(_) => str_to_string("Function"),
        Expr::FnExpr(_) => str_to_string("Function"),
        Expr::Ident(name) => str_to_string(name.as_str()),
        _ => str_to_string("unknown"),
    }
}


/// The bare-identifier names among a call's arguments from `i` on.
pub open spec fn spec_ident_args(args: Seq<crate::ast::ExprOrSpread>, i: int) -> Seq<Seq<char>>
    decreases args.len() - i,
{
    if i < 0 || i >= args.len() {
        Seq::empty()
    } else {
        match args[i].expr {
            Expr::Ident(name) => seq![name@] + spec_ident_args(args, i + 1),
            _ => spec_ident_args(args, i + 1),
        }
    }
}

/// The names a decorator lists, when it is a `UseMiddlewares(...)` call.
pub open spec fn spec_use_middlewares_names(d: Decorator) -> Option<Seq<Seq<char>>> {
    match d.expr {
        Expr::Call(c) => {
            let is_use = match c.callee {
                Callee::Expr(callee) => match *callee {
                    Expr::Ident(name) => name@ == "UseMiddlewares"@,
                    _ => false,
                },
                Callee::Other => false,
            };
            if is_use {
                Some(spec_ident_args(c.args@, 0))
            } else {
                None
            }
        },
        _ => None,
    }
}

/// The middleware names a decorator list contributes from `i` on.
pub open spec fn spec_decorators_middleware_names(ds: Seq<Decorator>, i: int) -> Seq<Seq<char>>
    decreases ds.len() - i,
{
    if i < 0 || i >= ds.len() {
        Seq::empty()
    } else {
        (match spec_use_middlewares_names(ds[i]) {
            Some(names) => names,
            None => Seq::empty(),
        }) + spec_decorators_middleware_names(ds, i + 1)
    }
}

/// The middleware names the class members' method decorators contribute
/// from `i` on.
pub open spec fn spec_members_middleware_names(
    members: Seq<ClassMember>,
    i: int,
) -> Seq<Seq<char>>
    decreases members.len() - i,
{
    if i < 0 || i >= members.len() {
        Seq::empty()
    } else {
        (match members[i] {
            ClassMember::Method(m) => spec_decorators_middleware_names(m.decorators@, 0),
            _ => Seq::empty(),
        }) + spec_members_middleware_names(members, i + 1)
    }
}

/// The middleware names a `UseMiddlewares(...)` decorator lists as bare
/// identifiers; any other decorator yields nothing.
#[verifier::loop_isolation(false)]
pub fn extract_use_middlewares_names(decorator: &Decorator) -> (r: Option<Vec<String>>)
    ensures
        match r {
            Some(names) => spec_use_middlewares_names(*decorator) == Some(
                crate::text::views_of(names@),
            ),
            None => spec_use_middlewares_names(*decorator) is None,
        },
{
    let call = match &decorator.expr {
        Expr::Call(c) => c,
        _ => {
            return None;
        },
    };
    let is_use_middlewares = match &call.callee {
        Callee::Expr(callee) => match &**callee {
            Expr::Ident(name) => str_eq(name.as_str(), "UseMiddlewares"),
            _ => false,
        },
        Callee::Other => false,
    };
    if !is_use_middlewares {
        return None;
    }
    let ghost full = spec_ident_args(call.args@, 0);
    let mut names: Vec<String> = Vec::new();
    let mut i: usize = 0;
    proof {
        assert(crate::text::views_of(names@) + full =~= full);
    }
    while i < call.args.len()
        invariant
            i <= call.args@.len(),
            full == crate::text::views_of(names@) + spec_ident_args(call.args@, i as int),
        decreases call.args@.len() - i,
    {
        let ghost before = crate::text::views_of(names@);
        let ghost rest = spec_ident_args(call.args@, i + 1);
        match &call.args[i].expr {
            Expr::Ident(name) => {
                names.push(str_to_string(name.as_str()));
                proof {
                    assert(crate::text::views_of(names@) =~= before.push(name@));
                    assert(before + (seq![name@] + rest) =~= before.push(name@) + rest);
                }
            },
            _ => {},
        }
        i += 1;
    }
    proof {
        assert(full =~= crate::text::views_of(names@) + Seq::<Seq<char>>::empty());
        assert(crate::text::views_of(names@) =~= full);
    }
    Some(names)
}

/// The middleware names attached to a class: its own `UseMiddlewares`
/// decorators first, then those of its methods, in class order.
#[verifier::loop_isolation(false)]
pub fn extract_middleware_names_from_class(class: &Class) -> (r: Vec<String>)
    ensures
        crate::text::views_of(r@) == spec_decorators_middleware_names(class.decorators@, 0)
            + spec_members_middleware_names(class.body@, 0),
{
    let ghost own = spec_decorators_middleware_names(class.decorators@, 0);
    let mut names: Vec<String> = Vec::new();
    let mut i: usize = 0;
    proof {
        assert(crate::text::views_of(names@) + own =~= own);
    }
    while i < class.decorators.len()
        invariant
            i <= class.decorators@.len(),
            own == crate::text::views_of(names@) + spec_decorators_middleware_names(
                class.decorators@,
                i as int,
            ),
        decreases class.decorators@.len() - i,
    {
        let ghost before = crate::text::views_of(names@);
        let ghost rest = spec_decorators_middleware_names(class.decorators@, i + 1);
        match extract_use_middlewares_names(&class.decorators[i]) {
            Some(mut found) => {
                let ghost found_views = crate::text::views_of(found@);
                names.append(&mut found);
                proof {
                    assert(crate::text::views_of(names@) =~= before + found_views);
                    assert(before + (found_views + rest) =~= (before + found_views) + rest);
                }
            },
            None => {
                proof {
                    assert(before + (Seq::<Seq<char>>::empty() + rest) =~= before + rest);
                }
            },
        }
        i += 1;
    }
    proof {
        assert(own =~= crate::text::views_of(names@) + Seq::<Seq<char>>::empty());
        assert(crate::text::views_of(names@) =~= own);
    }
    let ghost member_names = spec_members_middleware_names(class.body@, 0);
    let mut m: usize = 0;
    proof {
        assert(own + member_names =~= crate::text::views_of(names@) + member_names);
    }
    while m < class.body.len()
        invariant
            m <= class.body@.len(),
            own + member_names == crate::text::views_of(names@)
                + spec_members_middleware_names(class.body@, m as int),
        decreases class.body@.len() - m,
    {
        let ghost before_member = crate::text::views_of(names@);
        let ghost rest_members = spec_members_middleware_names(class.body@, m + 1);
        match &class.body[m] {
            ClassMember::Method(method) => {
                let ghost dfull = spec_decorators_middleware_names(method.decorators@, 0);
                let mut d: usize = 0;
                proof {
                    assert(before_member + Seq::<Seq<char>>::empty()
                        =~= crate::text::views_of(names@));
                }
                while d < method.decorators.len()
                    invariant
                        d <= method.decorators@.len(),
                        before_member + spec_decorators_middleware_names(
                            method.decorators@,
                            0,
                        ) == crate::text::views_of(names@) + spec_decorators_middleware_names(
                            method.decorators@,
                            d as int,
                        ),
                    decreases method.decorators@.len() - d,
                {
                    let ghost before_d = crate::text::views_of(names@);
                    let ghost rest_d = spec_decorators_middleware_names(
                        method.decorators@,
                        d + 1,
                    );
                    match extract_use_middlewares_names(&method.decorators[d]) {
                        Some(mut found) => {
                            let ghost found_views = crate::text::views_of(found@);
                            names.append(&mut found);
                            proof {
                                assert(crate::text::views_of(names@) =~= before_d
                                    + found_views);
                                assert(before_d + (found_views + rest_d) =~= (before_d
                                    + found_views) + rest_d);
                            }
                        },
                        None => {
                            proof {
                                assert(before_d + (Seq::<Seq<char>>::empty() + rest_d)
                                    =~= before_d + rest_d);
                            }
                        },
                    }
                    d += 1;
                }
                proof {
                    assert(before_member + dfull =~= crate::text::views_of(names@) + Seq::<
                        Seq<char>,
                    >::empty());
                    assert(crate::text::views_of(names@) =~= before_member + dfull);
                    assert(before_member + (dfull + rest_members) =~= (before_member + dfull)
                        + rest_members);
                }
            },
            _ => {
                proof {
                    assert(before_member + (Seq::<Seq<char>>::empty() + rest_members)
                        =~= before_member + rest_members);
                }
            },
        }
        m += 1;
    }
    proof {
        assert(own + member_names =~= crate::text::views_of(names@) + Seq::<Seq<char>>::empty());
        assert(crate::text::views_of(names@) =~= own + member_names);
    }
    names
}

/// Extracts the middleware info of the named class with a fresh parser.
pub fn extract_middleware(parsed_file: &ParsedFile, middleware_class_name: &str) -> (r: Option<
    MiddlewareInfo,
>)
    ensures
        match r {
            Some(info) => info.class_name@ == middleware_class_name@ && info.file_path@
                == parsed_file.file_path@ && spec_middleware_info_from(
                parsed_file.module.body@,
                middleware_class_name@,
                0,
            ) == Some(spec_props_view(info.context_properties@)),
            None => spec_middleware_info_from(
                parsed_file.module.body@,
                middleware_class_name@,
                0,
            ) is None,
        },
{
    MiddlewareParser::new().extract_middleware(parsed_file, middleware_class_name)
}

} // verus!
