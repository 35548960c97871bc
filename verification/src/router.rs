//! The router extractor: finds classes carrying a routing decorator and
//! reads their optional alias.

use vstd::prelude::*;

use crate::ast::{Decorator, Expr, Lit, ModuleItem, Prop, PropName, PropOrSpread};
use crate::project::ParsedFile;
use crate::text::str_eq;

verus! {

/// One router class: its name, its alias when the decorator gives one as a
/// plain string, and the file it was found in.
#[derive(Debug, Clone, PartialEq, Eq)]
pub struct RouterInfo {
    pub class_name: String,
    pub alias: Option<String>,
    pub file_path: String,
}

/// The view of a router match: the class name and alias as character
/// sequences.
pub struct RouterView {
    pub class_name: Seq<char>,
    pub alias: Option<Seq<char>>,
}

/// Whether a property name is the `alias` key.
pub open spec fn spec_is_alias_key(key: PropName) -> bool {
    match key {
        PropName::Ident(name) => name@ == "alias"@,
        PropName::Str(value) => value@ == "alias"@,
        _ => false,
    }
}

/// The alias a property value yields: a plain string literal, or a template
/// literal with a single quasi and no interpolation; anything else yields
/// none.
pub open spec fn spec_string_value(e: Expr) -> Option<Seq<char>> {
    match e {
        Expr::Lit(Lit::Str(value), text) => Some(value@),
        Expr::Tpl(tpl) => if tpl.expr_count == 0 && tpl.quasis@.len() == 1 {
            Some(tpl.quasis@[0]@)
        } else {
            None
        },
        _ => None,
    }
}

/// The alias carried by one object property, when it is an `alias` key with
/// a string value.
pub open spec fn spec_alias_of_prop(p: PropOrSpread) -> Option<Seq<char>> {
    match p {
        PropOrSpread::Prop(Prop::KeyValue(kv)) => if spec_is_alias_key(kv.key) {
            spec_string_value(kv.value)
        } else {
            None
        },
        _ => None,
    }
}

/// The alias of the first property, from `i` on, that yields one.
pub open spec fn spec_alias_from_props(props: Seq<PropOrSpread>, i: int) -> Option<Seq<char>>
    decreases props.len() - i,
{
    if i < 0 || i >= props.len() {
        None
    } else {
        match spec_alias_of_prop(props[i]) {
            Some(a) => Some(a),
            None => spec_alias_from_props(props, i + 1),
        }
    }
}

/// What a decorator contributes: `None` when it is no router decorator,
/// `Some(alias)` when it is one — a bare `Router`, a call without
/// arguments, or a call whose first object-literal argument may carry an
/// alias.
pub open spec fn spec_router_decorator(d: Decorator) -> Option<Option<Seq<char>>> {
    match d.expr {
        Expr::Ident(name) => if name@ == "Router"@ {
            Some(None)
        } else {
            None
        },
        Expr::Call(c) => match c.callee {
            crate::ast::Callee::Expr(callee) => match *callee {
                Expr::Ident(name) => if name@ == "Router"@ {
                    if c.args@.len() == 0 {
                        Some(None)
                    } else {
                        match c.args@[0].expr {
                            Expr::Object(o) => Some(spec_alias_from_props(o.props@, 0)),
                            _ => Some(None),
                        }
                    }
                } else {
                    None
                },
                _ => None,
            },
            crate::ast::Callee::Other => None,
        },
        _ => None,
    }
}

/// The contribution of the first router decorator, from `i` on.
pub open spec fn spec_router_from_decorators(ds: Seq<Decorator>, i: int) -> Option<
    Option<Seq<char>>,
>
    decreases ds.len() - i,
{
    if i < 0 || i >= ds.len() {
        None
    } else {
        match spec_router_decorator(ds[i]) {
            Some(a) => Some(a),
            None => spec_router_from_decorators(ds, i + 1),
        }
    }
}

/// The router a top-level item yields: a plain, exported or
/// default-exported class whose decorators include a router decorator. A
/// nameless default export is called `default`.
pub open spec fn spec_router_of_item(item: ModuleItem) -> Option<RouterView> {
    match item {
        ModuleItem::ClassDecl { name, class, exported } => match spec_router_from_decorators(
            class.decorators@,
            0,
        ) {
            Some(alias) => Some(RouterView { class_name: name@, alias }),
            None => None,
        },
        ModuleItem::DefaultClass { name, class } => match spec_router_from_decorators(
            class.decorators@,
            0,
        ) {
            Some(alias) => Some(
                RouterView {
                    class_name: match name {
                        Some(n) => n@,
                        None => "default"@,
                    },
                    alias,
                },
            ),
            None => None,
        },
        _ => None,
    }
}

/// The routers of a file's items, from `i` on, in item order.
pub open spec fn spec_routers_from(body: Seq<ModuleItem>, i: int) -> Seq<RouterView>
    decreases body.len() - i,
{
    if i < 0 || i >= body.len() {
        Seq::empty()
    } else {
        match spec_router_of_item(body[i]) {
            Some(v) => seq![v] + spec_routers_from(body, i + 1),
            None => spec_routers_from(body, i + 1),
        }
    }
}

/// The view of one extracted router.
pub open spec fn spec_router_info_view(r: RouterInfo) -> RouterView {
    RouterView {
        class_name: r.class_name@,
        alias: match r.alias {
            Some(a) => Some(a@),
            None => None,
        },
    }
}

fn string_value(e: &Expr) -> (r: Option<String>)
    ensures
        match r {
            Some(a) => spec_string_value(*e) == Some(a@),
            None => spec_string_value(*e) is None,
        },
{
    match e {
        Expr::Lit(Lit::Str(value), _text) => Some(crate::text::str_to_string(value.as_str())),
        Expr::Tpl(tpl) => {
            if tpl.expr_count == 0 && tpl.quasis.len() == 1 {
                Some(crate::text::str_to_string(tpl.quasis[0].as_str()))
            } else {
                None
            }
        },
        _ => None,
    }
}

fn is_alias_key(key: &PropName) -> (r: bool)
    ensures
        r == spec_is_alias_key(*key),
{
    match key {
        PropName::Ident(name) => str_eq(name.as_str(), "alias"),
        PropName::Str(value) => str_eq(value.as_str(), "alias"),
        _ => false,
    }
}

#[verifier::loop_isolation(false)]
fn alias_from_props(props: &Vec<PropOrSpread>) -> (r: Option<String>)
    ensures
        match r {
            Some(a) => spec_alias_from_props(props@, 0) == Some(a@),
            None => spec_alias_from_props(props@, 0) is None,
        },
{
    let mut i: usize = 0;
    while i < props.len()
        invariant
            i <= props@.len(),
            spec_alias_from_props(props@, 0) == spec_alias_from_props(props@, i as int),
        decreases props@.len() - i,
    {
        match &props[i] {
            PropOrSpread::Prop(Prop::KeyValue(kv)) => {
                if is_alias_key(&kv.key) {
                    match string_value(&kv.value) {
                        Some(a) => {
                            return Some(a);
                        },
                        None => {},
                    }
                }
            },
            _ => {},
        }
        proof {
            assert(spec_alias_from_props(props@, i as int) == spec_alias_from_props(
                props@,
                i + 1,
            ));
        }
        i += 1;
    }
    None
}

#[verifier::loop_isolation(false)]
fn router_from_decorators(decorators: &Vec<Decorator>) -> (r: Option<Option<String>>)
    ensures
        match r {
            Some(alias) => spec_router_from_decorators(decorators@, 0) == Some(
                match alias {
                    Some(a) => Some(a@),
                    None => None,
                },
            ),
            None => spec_router_from_decorators(decorators@, 0) is None,
        },
{
    let mut i: usize = 0;
    while i < decorators.len()
        invariant
            i <= decorators@.len(),
            spec_router_from_decorators(decorators@, 0) == spec_router_from_decorators(
                decorators@,
                i as int,
            ),
        decreases decorators@.len() - i,
    {
        let d = &decorators[i];
        match &d.expr {
            Expr::Ident(name) => {
                if str_eq(name.as_str(), "Router") {
                    return Some(None);
                }
            },
            Expr::Call(c) => {
                match &c.callee {
                    crate::ast::Callee::Expr(callee) => {
                        match &**callee {
                            Expr::Ident(name) => {
                                if str_eq(name.as_str(), "Router") {
                                    if c.args.len() == 0 {
                                        return Some(None);
                                    }
                                    match &c.args[0].expr {
                                        Expr::Object(o) => {
                                            return Some(alias_from_props(&o.props));
                                        },
                                        _ => {
                                            return Some(None);
                                        },
                                    }
                                }
                            },
                            _ => {},
                        }
                    },
                    crate::ast::Callee::Other => {},
                }
            },
            _ => {},
        }
        proof {
            assert(spec_router_from_decorators(decorators@, i as int)
                == spec_router_from_decorators(decorators@, i + 1));
        }
        i += 1;
    }
    None
}

/// Finds the router classes of a parsed file.
#[derive(Debug, Clone, PartialEq, Eq)]
pub struct RouterParser {}

impl RouterParser {
    /// A router parser; it carries no state.
    pub fn new() -> (r: RouterParser) {
        RouterParser {}
    }

    /// Extracts every router class of the file, in item order: each class
    /// whose decorators include a router decorator, with its alias when the
    /// decorator carries one as a plain string.
    #[verifier::loop_isolation(false)]
    pub fn extract_routers(&self, parsed_file: &ParsedFile) -> (r: Vec<RouterInfo>)
        ensures
            r@.map_values(|ri: RouterInfo| spec_router_info_view(ri)) =~= spec_routers_from(
                parsed_file.module.body@,
                0,
            ),
            forall|k: int| 0 <= k < r@.len() ==> (#[trigger] r@[k]).file_path@
                == parsed_file.file_path@,
    {
        let mut routers: Vec<RouterInfo> = Vec::new();
        let body = &parsed_file.module.body;
        let mut i: usize = 0;
        while i < body.len()
            invariant
                i <= body@.len(),
                spec_routers_from(body@, 0) =~= routers@.map_values(
                    |ri: RouterInfo| spec_router_info_view(ri),
                ) + spec_routers_from(body@, i as int),
                forall|k: int| 0 <= k < routers@.len() ==> (#[trigger] routers@[k]).file_path@
                    == parsed_file.file_path@,
            decreases body@.len() - i,
        {
            let ghost routers_before = routers@;
            let found: Option<RouterInfo> = match &body[i] {
                ModuleItem::ClassDecl { name, class, exported: _ } => {
                    match router_from_decorators(&class.decorators) {
                        Some(alias) => Some(
                            RouterInfo {
                                class_name: crate::text::str_to_string(name.as_str()),
                                alias,
                                file_path: crate::text::str_to_string(
                                    parsed_file.file_path.as_str(),
                                ),
                            },
                        ),
                        None => None,
                    }
                },
                ModuleItem::DefaultClass { name, class } => {
                    match router_from_decorators(&class.decorators) {
                        Some(alias) => {
                            let class_name = match name {
                                Some(n) => crate::text::str_to_string(n.as_str()),
                                None => crate::text::str_to_string("default"),
                            };
                            Some(
                                RouterInfo {
                                    class_name,
                                    alias,
                                    file_path: crate::text::str_to_string(
                                        parsed_file.file_path.as_str(),
                                    ),
                                },
                            )
                        },
                        None => None,
                    }
                },
                _ => None,
            };
            match found {
                Some(info) => {
                    proof {
                        assert(spec_router_of_item(body@[i as int]) == Some(
                            spec_router_info_view(info),
                        ));
                    }
                    routers.push(info);
                    proof {
                        assert(routers@.map_values(|ri: RouterInfo| spec_router_info_view(ri))
                            =~= routers_before.map_values(
                            |ri: RouterInfo| spec_router_info_view(ri),
                        ) + seq![spec_router_info_view(routers@.last())]);
                    }
                },
                None => {
                    proof {
                        assert(spec_router_of_item(body@[i as int]) is None);
                    }
                },
            }
            i += 1;
        }
        routers
    }
}

/// Extracts the router classes of a file with a fresh parser.
pub fn extract_routers(parsed_file: &ParsedFile) -> (r: Vec<RouterInfo>)
    ensures
        r@.map_values(|ri: RouterInfo| spec_router_info_view(ri)) =~= spec_routers_from(
            parsed_file.module.body@,
            0,
        ),
        forall|k: int| 0 <= k < r@.len() ==> (#[trigger] r@[k]).file_path@
            == parsed_file.file_path@,
{
    RouterParser::new().extract_routers(parsed_file)
}

} // verus!
