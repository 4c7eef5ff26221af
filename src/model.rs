//! Mathematical views of the syntax tree: each node with its strings as
//! `Seq<char>` and its vectors as `Seq`.
use vstd::prelude::*;
use crate::ast::{
    Attribute, Block, Expr, Field, Item, ItemKind, Lit, Param, Pat, Path, Span, Stmt, Ty,
};

verus! {

/// The view of an [`Attribute`].
pub struct AttributeV {
    pub name: Seq<char>,
    pub args: Seq<Seq<char>>,
    pub span: Span,
}

/// The view of a [`Path`].
pub struct PathV {
    pub global: bool,
    pub segments: Seq<Seq<char>>,
}

/// The view of a [`Ty`].
pub enum TyV {
    Unit,
    Path(PathV),
    FnPtr { inputs: Seq<TyV>, output: Box<TyV> },
}

/// The view of a [`Pat`].
pub enum PatV {
    Wild,
    Ident(Seq<char>),
}

/// The view of a [`Param`].
pub struct ParamV {
    pub pat: PatV,
    pub ty: TyV,
}

/// The view of a [`Lit`].
pub enum LitV {
    Bool(bool),
    Int(u64),
    Str(Seq<char>),
}

/// The view of an [`Expr`].
pub enum ExprV {
    Lit { lit: LitV, span: Span },
    Path { path: PathV, span: Span },
    Call { callee: Box<ExprV>, args: Seq<ExprV>, span: Span },
    Closure { params: Seq<ParamV>, body: Box<ExprV>, span: Span },
}

/// The view of a [`Field`].
pub struct FieldV {
    pub ident: Seq<char>,
    pub ty: TyV,
}

/// The view of a [`Stmt`].
pub enum StmtV {
    Item { item: Box<ItemV>, span: Span },
    Semi { expr: ExprV, span: Span },
}

/// The view of a [`Block`].
pub struct BlockV {
    pub stmts: Seq<StmtV>,
    pub expr: Option<Box<ExprV>>,
    pub span: Span,
}

/// The view of an [`ItemKind`].
pub enum ItemKindV {
    Fn { inputs: Seq<ParamV>, output: TyV, body: BlockV },
    Static { ty: TyV, mutable: bool, init: ExprV },
    Const { ty: TyV, init: ExprV },
    Struct { fields: Seq<FieldV> },
    Enum { variants: Seq<Seq<char>> },
    Mod { items: Seq<ItemV> },
    Use { path: PathV },
}

/// The view of an [`Item`].
pub struct ItemV {
    pub ident: Seq<char>,
    pub attrs: Seq<AttributeV>,
    pub kind: ItemKindV,
    pub span: Span,
}

pub open spec fn strings_view(s: Seq<String>) -> Seq<Seq<char>> {
    s.map_values(|x: String| x@)
}

impl View for Attribute {
    type V = AttributeV;

    open spec fn view(&self) -> AttributeV {
        AttributeV { name: self.name@, args: strings_view(self.args@), span: self.span }
    }
}

pub open spec fn attrs_view(s: Seq<Attribute>) -> Seq<AttributeV> {
    s.map_values(|a: Attribute| a@)
}

impl View for Path {
    type V = PathV;

    open spec fn view(&self) -> PathV {
        PathV { global: self.global, segments: strings_view(self.segments@) }
    }
}

pub open spec fn ty_view(t: Ty) -> TyV
    decreases t,
{
    match t {
        Ty::Unit => TyV::Unit,
        Ty::Path(p) => TyV::Path(p@),
        Ty::FnPtr { inputs, output } => TyV::FnPtr {
            inputs: tys_view(inputs@),
            output: Box::new(ty_view(*output)),
        },
    }
}

pub open spec fn tys_view(s: Seq<Ty>) -> Seq<TyV>
    decreases s,
{
    if s.len() == 0 {
        Seq::empty()
    } else {
        tys_view(s.subrange(0, s.len() - 1)).push(ty_view(s[s.len() - 1]))
    }
}

impl View for Ty {
    type V = TyV;

    open spec fn view(&self) -> TyV {
        ty_view(*self)
    }
}

impl View for Pat {
    type V = PatV;

    open spec fn view(&self) -> PatV {
        match self {
            Pat::Wild => PatV::Wild,
            Pat::Ident(s) => PatV::Ident(s@),
        }
    }
}

impl View for Param {
    type V = ParamV;

    open spec fn view(&self) -> ParamV {
        ParamV { pat: self.pat@, ty: self.ty@ }
    }
}

pub open spec fn params_view(s: Seq<Param>) -> Seq<ParamV> {
    s.map_values(|p: Param| p@)
}

impl View for Lit {
    type V = LitV;

    open spec fn view(&self) -> LitV {
        match self {
            Lit::Bool(b) => LitV::Bool(*b),
            Lit::Int(n) => LitV::Int(*n),
            Lit::Str(s) => LitV::Str(s@),
        }
    }
}

pub open spec fn expr_view(e: Expr) -> ExprV
    decreases e,
{
    match e {
        Expr::Lit { lit, span } => ExprV::Lit { lit: lit@, span },
        Expr::Path { path, span } => ExprV::Path { path: path@, span },
        Expr::Call { callee, args, span } => ExprV::Call {
            callee: Box::new(expr_view(*callee)),
            args: exprs_view(args@),
            span,
        },
        Expr::Closure { params, body, span } => ExprV::Closure {
            params: params_view(params@),
            body: Box::new(expr_view(*body)),
            span,
        },
    }
}

pub open spec fn exprs_view(s: Seq<Expr>) -> Seq<ExprV>
    decreases s,
{
    if s.len() == 0 {
        Seq::empty()
    } else {
        exprs_view(s.subrange(0, s.len() - 1)).push(expr_view(s[s.len() - 1]))
    }
}

impl View for Expr {
    type V = ExprV;

    open spec fn view(&self) -> ExprV {
        expr_view(*self)
    }
}

impl View for Field {
    type V = FieldV;

    open spec fn view(&self) -> FieldV {
        FieldV { ident: self.ident@, ty: self.ty@ }
    }
}

pub open spec fn item_view(i: Item) -> ItemV
    decreases i,
{
    ItemV {
        ident: i.ident@,
        attrs: attrs_view(i.attrs@),
        kind: kind_view(i.kind),
        span: i.span,
    }
}

pub open spec fn kind_view(k: ItemKind) -> ItemKindV
    decreases k,
{
    match k {
        ItemKind::Fn { inputs, output, body } => ItemKindV::Fn {
            inputs: params_view(inputs@),
            output: output@,
            body: block_view(body),
        },
        ItemKind::Static { ty, mutable, init } => ItemKindV::Static {
            ty: ty@,
            mutable,
            init: init@,
        },
        ItemKind::Const { ty, init } => ItemKindV::Const { ty: ty@, init: init@ },
        ItemKind::Struct { fields } => ItemKindV::Struct {
            fields: fields@.map_values(|f: Field| f@),
        },
        ItemKind::Enum { variants } => ItemKindV::Enum { variants: strings_view(variants@) },
        ItemKind::Mod { items } => ItemKindV::Mod { items: items_view(items@) },
        ItemKind::Use { path } => ItemKindV::Use { path: path@ },
    }
}

pub open spec fn items_view(s: Seq<Item>) -> Seq<ItemV>
    decreases s,
{
    if s.len() == 0 {
        Seq::empty()
    } else {
        items_view(s.subrange(0, s.len() - 1)).push(item_view(s[s.len() - 1]))
    }
}

pub open spec fn block_view(b: Block) -> BlockV
    decreases b,
{
    BlockV {
        stmts: stmts_view(b.stmts@),
        expr: match b.expr {
            Some(e) => Some(Box::new(e@)),
            None => None,
        },
        span: b.span,
    }
}

pub open spec fn stmts_view(s: Seq<Stmt>) -> Seq<StmtV>
    decreases s,
{
    if s.len() == 0 {
        Seq::empty()
    } else {
        stmts_view(s.subrange(0, s.len() - 1)).push(stmt_view(s[s.len() - 1]))
    }
}

pub open spec fn stmt_view(s: Stmt) -> StmtV
    decreases s,
{
    match s {
        Stmt::Item { item, span } => StmtV::Item { item: Box::new(item_view(*item)), span },
        Stmt::Semi { expr, span } => StmtV::Semi { expr: expr@, span },
    }
}

impl View for Item {
    type V = ItemV;

    open spec fn view(&self) -> ItemV {
        item_view(*self)
    }
}

} // verus!
