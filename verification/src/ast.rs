//! The syntax-tree model that every analysis in this crate consumes.
//!
//! A caller parses TypeScript source outside this crate and hands the parts
//! the analyses read over in these tagged variants. Each node that is not a
//! bare identifier carries its exact source text, so the flattener can
//! substitute at the text level; positions inside the original file are not
//! kept. Shapes the analyses never look into arrive as [`Expr::Other`] with
//! their text only.

use vstd::prelude::*;

verus! {

/// A literal value; payloads hold the source text where one is needed.
#[derive(Debug, Clone, PartialEq, Eq)]
pub enum Lit {
    Str(String),
    Num(String),
    Bool(bool),
    Null,
    BigInt(String),
    Regex(String),
    JsxText(String),
}

/// A property name in an object literal or class member key.
#[derive(Debug, Clone, PartialEq, Eq)]
pub enum PropName {
    Ident(String),
    Str(String),
    Num(String),
    BigInt(String),
    Computed(String),
}

/// A `key: value` entry of an object literal. `text` is the exact source
/// from the start of the key to the end of the value.
#[derive(Debug, PartialEq, Eq)]
pub struct KeyValueProp {
    pub key: PropName,
    pub value: Expr,
    pub text: String,
}

/// One property of an object literal.
#[derive(Debug, PartialEq, Eq)]
pub enum Prop {
    KeyValue(Box<KeyValueProp>),
    Shorthand(String),
    Other,
}

/// A property or a spread entry of an object literal.
#[derive(Debug, PartialEq, Eq)]
pub enum PropOrSpread {
    Prop(Prop),
    Spread,
}

/// An argument or array element, possibly spread.
#[derive(Debug, PartialEq, Eq)]
pub struct ExprOrSpread {
    pub spread: bool,
    pub expr: Expr,
}

/// The callee position of a call expression.
#[derive(Debug, PartialEq, Eq)]
pub enum Callee {
    Expr(Box<Expr>),
    Other,
}

/// An object literal with its properties and source text.
#[derive(Debug, PartialEq, Eq)]
pub struct ObjectLit {
    pub props: Vec<PropOrSpread>,
    pub text: String,
}

/// An array literal; a `None` element is an elision (`[a, , b]`).
#[derive(Debug, PartialEq, Eq)]
pub struct ArrayLit {
    pub elems: Vec<Option<ExprOrSpread>>,
    pub text: String,
}

/// A call expression with callee, arguments and source text.
#[derive(Debug, PartialEq, Eq)]
pub struct CallExpr {
    pub callee: Callee,
    pub args: Vec<ExprOrSpread>,
    pub text: String,
}

/// The property position of a member expression.
#[derive(Debug, Clone, PartialEq, Eq)]
pub enum MemberProp {
    Ident(String),
    Other,
}

/// A member access `obj.prop` with its source text.
#[derive(Debug, PartialEq, Eq)]
pub struct MemberExpr {
    pub obj: Box<Expr>,
    pub prop: MemberProp,
    pub text: String,
}

/// A parenthesized expression with its source text.
#[derive(Debug, PartialEq, Eq)]
pub struct ParenExpr {
    pub expr: Box<Expr>,
    pub text: String,
}

/// A template literal: its quasis, how many interpolations it has, and its
/// source text.
#[derive(Debug, Clone, PartialEq, Eq)]
pub struct TplExpr {
    pub quasis: Vec<String>,
    pub expr_count: usize,
    pub text: String,
}

/// An expression, by shape. Shapes the analyses never read arrive as
/// `Other` carrying only their source text and are passed through unchanged.
#[derive(Debug, PartialEq, Eq)]
pub enum Expr {
    Ident(String),
    Object(ObjectLit),
    Array(ArrayLit),
    Call(CallExpr),
    Member(MemberExpr),
    Paren(ParenExpr),
    Lit(Lit, String),
    Tpl(TplExpr),
    Arrow(String),
    FnExpr(String),
    AwaitExpr(Box<Expr>, String),
    Other(String),
}

/// The source text of an expression: the identifier's name for a bare
/// identifier, the recorded source text otherwise.
pub open spec fn text_of(e: Expr) -> Seq<char> {
    match e {
        Expr::Ident(name) => name@,
        Expr::Object(o) => o.text@,
        Expr::Array(a) => a.text@,
        Expr::Call(c) => c.text@,
        Expr::Member(m) => m.text@,
        Expr::Paren(p) => p.text@,
        Expr::Lit(_, text) => text@,
        Expr::Tpl(t) => t.text@,
        Expr::Arrow(text) => text@,
        Expr::FnExpr(text) => text@,
        Expr::AwaitExpr(_, text) => text@,
        Expr::Other(text) => text@,
    }
}

impl Expr {
    /// The source text of this expression, used wherever the flattener
    /// substitutes text in place.
    pub fn text(&self) -> (r: &String)
        ensures
            r@ == text_of(*self),
    {
        match self {
            Expr::Ident(name) => name,
            Expr::Object(o) => &o.text,
            Expr::Array(a) => &a.text,
            Expr::Call(c) => &c.text,
            Expr::Member(m) => &m.text,
            Expr::Paren(p) => &p.text,
            Expr::Lit(_, text) => text,
            Expr::Tpl(t) => &t.text,
            Expr::Arrow(text) => text,
            Expr::FnExpr(text) => text,
            Expr::AwaitExpr(_, text) => text,
            Expr::Other(text) => text,
        }
    }
}

/// A decorator attached to a class or method.
#[derive(Debug, PartialEq, Eq)]
pub struct Decorator {
    pub expr: Expr,
}

/// A statement, modeling only the shapes the extractors walk.
#[derive(Debug, PartialEq, Eq)]
pub enum Stmt {
    Return(Option<Expr>),
    Expr(Expr),
    Block(Vec<Stmt>),
    If { cons: Box<Stmt>, alt: Option<Box<Stmt>> },
    Try { block: Vec<Stmt>, handler: Option<Vec<Stmt>> },
    Other,
}

/// A class method with its name, decorators and body statements.
#[derive(Debug, PartialEq, Eq)]
pub struct ClassMethod {
    pub key: PropName,
    pub decorators: Vec<Decorator>,
    pub body: Option<Vec<Stmt>>,
}

/// A class member.
#[derive(Debug, PartialEq, Eq)]
pub enum ClassMember {
    Method(ClassMethod),
    Other,
}

/// A class with its decorators and members.
#[derive(Debug, PartialEq, Eq)]
pub struct Class {
    pub decorators: Vec<Decorator>,
    pub body: Vec<ClassMember>,
}

/// One named binding of an import statement.
#[derive(Debug, Clone, PartialEq, Eq)]
pub struct ImportNamedSpecifier {
    pub local: String,
    pub imported: Option<String>,
}

/// A specifier of an import statement.
#[derive(Debug, Clone, PartialEq, Eq)]
pub enum ImportSpecifier {
    Named(ImportNamedSpecifier),
    Default(String),
    Namespace(String),
}

/// An `import ... from 'src'` statement.
#[derive(Debug, Clone, PartialEq, Eq)]
pub struct ImportDecl {
    pub src: String,
    pub specifiers: Vec<ImportSpecifier>,
}

/// One `orig as exported` binding of a named re-export.
#[derive(Debug, Clone, PartialEq, Eq)]
pub struct ExportNamedSpecifier {
    pub orig: String,
    pub exported: Option<String>,
}

/// A specifier of a named export statement.
#[derive(Debug, Clone, PartialEq, Eq)]
pub enum ExportSpecifier {
    Named(ExportNamedSpecifier),
    Other,
}

/// An `export { ... }` statement, re-exporting from `src` when present.
#[derive(Debug, Clone, PartialEq, Eq)]
pub struct NamedExport {
    pub src: Option<String>,
    pub specifiers: Vec<ExportSpecifier>,
}

/// An `export * from 'src'` statement.
#[derive(Debug, Clone, PartialEq, Eq)]
pub struct ExportAll {
    pub src: String,
}

/// One declarator of a variable statement; `name` is present only for a
/// plain identifier pattern.
#[derive(Debug, PartialEq, Eq)]
pub struct VarDeclarator {
    pub name: Option<String>,
    pub init: Option<Expr>,
}

/// A variable statement with its declarators.
#[derive(Debug, PartialEq, Eq)]
pub struct VarDecl {
    pub decls: Vec<VarDeclarator>,
}

/// A top-level item of a module.
#[derive(Debug, PartialEq, Eq)]
pub enum ModuleItem {
    Import(ImportDecl),
    ExportNamed(NamedExport),
    ExportAll(ExportAll),
    Var { decl: VarDecl, exported: bool },
    ClassDecl { name: String, class: Class, exported: bool },
    DefaultClass { name: Option<String>, class: Class },
    FnDecl { name: String, exported: bool },
    InterfaceDecl { name: String, exported: bool },
    EnumDecl { name: String, exported: bool },
    TypeAliasDecl { name: String, exported: bool },
    ExportDefaultExpr(Expr),
    Other,
}

/// A parsed module: its top-level items in source order.
#[derive(Debug, PartialEq, Eq)]
pub struct Module {
    pub body: Vec<ModuleItem>,
}

} // verus!
