//! A tree model of the declarations that the lint inspects.
//!
//! Only the shape that the lint reads is modelled: the kind of a
//! declaration, the trait an implementation is for, its member items, and
//! the statement structure of a function body.
use vstd::prelude::*;

verus! {

/// Identity of a definition, as the host compiler resolves it.
#[derive(Clone, Copy, Debug, PartialEq, Eq, Structural)]
pub struct DefId {
    pub krate: u32,
    pub index: u32,
}

/// A byte range of source text.
#[derive(Clone, Copy, Debug, PartialEq, Eq, Structural)]
pub struct Span {
    pub lo: u32,
    pub hi: u32,
}

/// A top-level declaration.
#[derive(Debug)]
pub struct Item {
    pub kind: ItemKind,
    pub span: Span,
}

/// What a declaration is.
#[derive(Debug)]
pub enum ItemKind {
    /// An implementation block, inherent or of a trait.
    Impl(Impl),
    Fn,
    Struct,
    Enum,
    Other,
}

/// An implementation block.
#[derive(Debug)]
pub struct Impl {
    /// The trait being implemented; `None` for an inherent block.
    pub of_trait: Option<TraitRef>,
    /// The items written inside the block, in order.
    pub items: Vec<ImplItem>,
}

/// A reference to a trait in an `impl ... for` header.
#[derive(Clone, Copy, Debug)]
pub struct TraitRef {
    /// The trait the path resolves to; `None` when it does not resolve.
    pub def_id: Option<DefId>,
}

/// A member of an implementation block.
#[derive(Debug)]
pub struct ImplItem {
    pub kind: ImplItemKind,
    pub span: Span,
}

/// What a member of an implementation block is.
#[derive(Debug)]
pub enum ImplItemKind {
    Const,
    Fn(Body),
    Type,
}

/// The body of a function: its value expression.
#[derive(Debug)]
pub struct Body {
    pub value: Expr,
}

/// An expression.
#[derive(Debug)]
pub enum Expr {
    /// A brace-delimited block.
    Block(Block),
    /// A call of the named function with the given arguments.
    Call(String, Vec<Expr>),
    /// A path, such as a local variable.
    Path(String),
    /// A literal, as written.
    Lit(String),
    /// Any other expression.
    Other,
}

/// A block: statements and an optional trailing expression.
#[derive(Debug)]
pub struct Block {
    pub stmts: Vec<Stmt>,
    pub expr: Option<Box<Expr>>,
}

/// A statement of a block.
#[derive(Debug)]
pub enum Stmt {
    /// A `let` binding of the named pattern, with its initialiser if any.
    Local(String, Option<Expr>),
    /// A nested item declaration.
    Item,
    /// An expression without a trailing semicolon, such as a nested block.
    Expr(Expr),
    /// An expression followed by a semicolon.
    Semi(Expr),
}

} // verus!
