//! The result type of cross-file name resolution.

use vstd::prelude::*;

verus! {

/// What kind of declaration a resolved name refers to.
#[derive(Debug, Clone, Copy, PartialEq, Eq, Structural)]
pub enum DeclarationType {
    Variable,
    Class,
    Interface,
    Enum,
    Function,
    TypeAlias,
    Unknown,
}

impl DeclarationType {
    /// The lower-case word this kind renders as.
    pub fn as_str(&self) -> (r: &'static str)
        ensures
            *self is Variable ==> r@ == "variable"@,
            *self is Class ==> r@ == "class"@,
            *self is Interface ==> r@ == "interface"@,
            *self is Enum ==> r@ == "enum"@,
            *self is Function ==> r@ == "function"@,
            *self is TypeAlias ==> r@ == "type alias"@,
            *self is Unknown ==> r@ == "unknown"@,
    {
        match self {
            DeclarationType::Variable => "variable",
            DeclarationType::Class => "class",
            DeclarationType::Interface => "interface",
            DeclarationType::Enum => "enum",
            DeclarationType::Function => "function",
            DeclarationType::TypeAlias => "type alias",
            DeclarationType::Unknown => "unknown",
        }
    }
}

/// A successfully resolved name: where it is declared and as what.
#[derive(Debug, Clone, PartialEq, Eq)]
pub struct ResolvedImport {
    pub name: String,
    pub source_file: String,
    pub declaration_type: DeclarationType,
}

} // verus!
