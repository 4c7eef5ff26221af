//! The syntax-tree nodes that the expander reads and produces.
use vstd::prelude::*;

verus! {

/// A region of source text, as byte offsets.
#[derive(Clone, Copy, Debug, PartialEq, Eq, Structural)]
pub struct Span {
    pub lo: u32,
    pub hi: u32,
}

/// An attribute `#[name(arg, ...)]` attached to a declaration.
#[derive(Debug, PartialEq, Eq)]
pub struct Attribute {
    pub name: String,
    pub args: Vec<String>,
    pub span: Span,
}

/// A path such as `::quickcheck::quickcheck` (global) or `x` (local).
#[derive(Debug, PartialEq, Eq)]
pub struct Path {
    pub global: bool,
    pub segments: Vec<String>,
}

/// A type.
#[derive(Debug, PartialEq, Eq)]
pub enum Ty {
    /// The unit type `()`.
    Unit,
    /// A named type such as `bool` or `std::string::String`.
    Path(Path),
    /// A function pointer type `fn(inputs) -> output`.
    FnPtr { inputs: Vec<Ty>, output: Box<Ty> },
}

/// A pattern binding a parameter.
#[derive(Debug, PartialEq, Eq)]
pub enum Pat {
    Wild,
    Ident(String),
}

/// A parameter of a function or a closure.
#[derive(Debug, PartialEq, Eq)]
pub struct Param {
    pub pat: Pat,
    pub ty: Ty,
}

/// A literal.
#[derive(Debug, PartialEq, Eq)]
pub enum Lit {
    Bool(bool),
    Int(u64),
    Str(String),
}

/// An expression.
#[derive(Debug, PartialEq, Eq)]
pub enum Expr {
    Lit { lit: Lit, span: Span },
    Path { path: Path, span: Span },
    Call { callee: Box<Expr>, args: Vec<Expr>, span: Span },
    Closure { params: Vec<Param>, body: Box<Expr>, span: Span },
}

/// A named field of a struct.
#[derive(Debug, PartialEq, Eq)]
pub struct Field {
    pub ident: String,
    pub ty: Ty,
}

/// A statement of a block.
#[derive(Debug, PartialEq, Eq)]
pub enum Stmt {
    /// A nested declaration.
    Item { item: Box<Item>, span: Span },
    /// An expression statement ending in `;`.
    Semi { expr: Expr, span: Span },
}

/// A block `{ stmts; expr }`.
#[derive(Debug, PartialEq, Eq)]
pub struct Block {
    pub stmts: Vec<Stmt>,
    pub expr: Option<Box<Expr>>,
    pub span: Span,
}

/// What a declaration declares.
#[derive(Debug, PartialEq, Eq)]
pub enum ItemKind {
    Fn { inputs: Vec<Param>, output: Ty, body: Block },
    Static { ty: Ty, mutable: bool, init: Expr },
    Const { ty: Ty, init: Expr },
    Struct { fields: Vec<Field> },
    Enum { variants: Vec<String> },
    Mod { items: Vec<Item> },
    Use { path: Path },
}

/// A declaration: its name, its attributes in source order, what it
/// declares, and where it stands.
#[derive(Debug, PartialEq, Eq)]
pub struct Item {
    pub ident: String,
    pub attrs: Vec<Attribute>,
    pub kind: ItemKind,
    pub span: Span,
}

} // verus!
