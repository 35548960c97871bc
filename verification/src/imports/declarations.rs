//! Search for a named declaration among a file's top-level items.

use vstd::prelude::*;

use crate::ast::{ModuleItem, VarDecl};
use crate::imports::types::{DeclarationType, ResolvedImport};
use crate::project::ParsedFile;
use crate::text::{str_eq, str_to_string};

verus! {

/// Whether a variable statement declares a binding with this name.
pub open spec fn spec_var_declares(decl: VarDecl, name: Seq<char>) -> bool {
    exists|i: int|
        0 <= i < decl.decls@.len() && match (#[trigger] decl.decls@[i]).name {
            Some(n) => n@ == name,
            None => false,
        }
}

/// What a top-level item declares under this name, if anything. A default
/// export is not searched here; only plain and `export`ed declarations are.
pub open spec fn spec_item_declares(item: ModuleItem, name: Seq<char>) -> Option<
    DeclarationType,
> {
    match item {
        ModuleItem::Var { decl, exported } => if spec_var_declares(decl, name) {
            Some(DeclarationType::Variable)
        } else {
            None
        },
        ModuleItem::ClassDecl { name: n, class, exported } => if n@ == name {
            Some(DeclarationType::Class)
        } else {
            None
        },
        ModuleItem::FnDecl { name: n, exported } => if n@ == name {
            Some(DeclarationType::Function)
        } else {
            None
        },
        ModuleItem::InterfaceDecl { name: n, exported } => if n@ == name {
            Some(DeclarationType::Interface)
        } else {
            None
        },
        ModuleItem::EnumDecl { name: n, exported } => if n@ == name {
            Some(DeclarationType::Enum)
        } else {
            None
        },
        ModuleItem::TypeAliasDecl { name: n, exported } => if n@ == name {
            Some(DeclarationType::TypeAlias)
        } else {
            None
        },
        _ => None,
    }
}

/// The kind of the first item of `body`, starting at `i`, that declares
/// `name`.
pub open spec fn spec_find_declaration_from(
    body: Seq<ModuleItem>,
    name: Seq<char>,
    i: int,
) -> Option<DeclarationType>
    decreases body.len() - i,
{
    if i < 0 || i >= body.len() {
        None
    } else {
        match spec_item_declares(body[i], name) {
            Some(dt) => Some(dt),
            None => spec_find_declaration_from(body, name, i + 1),
        }
    }
}

/// The kind under which a file's top level declares `name`, if it does.
pub open spec fn spec_find_declaration(body: Seq<ModuleItem>, name: Seq<char>) -> Option<
    DeclarationType,
> {
    spec_find_declaration_from(body, name, 0)
}

fn var_declares(decl: &VarDecl, name: &str) -> (r: bool)
    ensures
        r == spec_var_declares(*decl, name@),
{
    let mut i: usize = 0;
    while i < decl.decls.len()
        invariant
            i <= decl.decls@.len(),
            forall|j: int|
                0 <= j < i ==> match (#[trigger] decl.decls@[j]).name {
                    Some(n) => n@ != name@,
                    None => true,
                },
        decreases decl.decls@.len() - i,
    {
        match &decl.decls[i].name {
            Some(n) => {
                if str_eq(n.as_str(), name) {
                    return true;
                }
            },
            None => {},
        }
        i += 1;
    }
    false
}

fn item_declares(item: &ModuleItem, name: &str) -> (r: Option<DeclarationType>)
    ensures
        r == spec_item_declares(*item, name@),
{
    match item {
        ModuleItem::Var { decl, exported: _ } => {
            if var_declares(decl, name) {
                Some(DeclarationType::Variable)
            } else {
                None
            }
        },
        ModuleItem::ClassDecl { name: n, class: _, exported: _ } => {
            if str_eq(n.as_str(), name) {
                Some(DeclarationType::Class)
            } else {
                None
            }
        },
        ModuleItem::FnDecl { name: n, exported: _ } => {
            if str_eq(n.as_str(), name) {
                Some(DeclarationType::Function)
            } else {
                None
            }
        },
        ModuleItem::InterfaceDecl { name: n, exported: _ } => {
            if str_eq(n.as_str(), name) {
                Some(DeclarationType::Interface)
            } else {
                None
            }
        },
        ModuleItem::EnumDecl { name: n, exported: _ } => {
            if str_eq(n.as_str(), name) {
                Some(DeclarationType::Enum)
            } else {
                None
            }
        },
        ModuleItem::TypeAliasDecl { name: n, exported: _ } => {
            if str_eq(n.as_str(), name) {
                Some(DeclarationType::TypeAlias)
            } else {
                None
            }
        },
        _ => None,
    }
}

/// Finds the first top-level declaration of `name` in the file, giving back
/// where it is declared and as what.
#[verifier::loop_isolation(false)]
pub fn find_declaration_in_file(parsed: &ParsedFile, name: &str) -> (r: Option<ResolvedImport>)
    ensures
        match r {
            Some(ri) => ri.name@ == name@ && ri.source_file@ == parsed.file_path@
                && spec_find_declaration(parsed.module.body@, name@) == Some(
                ri.declaration_type,
            ),
            None => spec_find_declaration(parsed.module.body@, name@) is None,
        },
{
    let body = &parsed.module.body;
    let mut i: usize = 0;
    while i < body.len()
        invariant
            i <= body@.len(),
            spec_find_declaration(body@, name@) == spec_find_declaration_from(
                body@,
                name@,
                i as int,
            ),
        decreases body@.len() - i,
    {
        match item_declares(&body[i], name) {
            Some(dt) => {
                proof {
                    assert(spec_find_declaration_from(body@, name@, i as int) == Some(dt));
                }
                return Some(
                    ResolvedImport {
                        name: str_to_string(name),
                        source_file: str_to_string(parsed.file_path.as_str()),
                        declaration_type: dt,
                    },
                );
            },
            None => {
                proof {
                    assert(spec_find_declaration_from(body@, name@, i as int)
                        == spec_find_declaration_from(body@, name@, i + 1));
                }
            },
        }
        i += 1;
    }
    None
}

} // verus!
