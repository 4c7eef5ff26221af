//! Rewriting of a declaration annotated with `#[quickcheck]`.
use vstd::prelude::*;
use crate::ast::{Attribute, Block, Expr, Item, ItemKind, Param, Path, Span, Stmt, Ty};
use crate::model::{
    attrs_view, block_view, exprs_view, params_view, stmts_view, strings_view, AttributeV, BlockV,
    ExprV, ItemKindV, ItemV, PathV, StmtV, TyV,
};

verus! {

/// An error reported at a source location.
#[derive(Debug, PartialEq, Eq)]
pub struct Diagnostic {
    pub message: String,
    pub span: Span,
}

/// What the expander hands back for one annotated declaration.
#[derive(Debug, PartialEq, Eq)]
pub enum Expansion {
    /// The declaration is replaced by the given one.
    Replace(Item),
    /// The declaration is kept as it was, and the diagnostic is reported.
    Unchanged { item: Item, diagnostic: Diagnostic },
}

/// The view of a [`Diagnostic`].
pub struct DiagnosticV {
    pub message: Seq<char>,
    pub span: Span,
}

/// The view of an [`Expansion`].
pub enum ExpansionV {
    Replace(ItemV),
    Unchanged { item: ItemV, diagnostic: DiagnosticV },
}

impl View for Diagnostic {
    type V = DiagnosticV;

    open spec fn view(&self) -> DiagnosticV {
        DiagnosticV { message: self.message@, span: self.span }
    }
}

impl View for Expansion {
    type V = ExpansionV;

    open spec fn view(&self) -> ExpansionV {
        match self {
            Expansion::Replace(item) => ExpansionV::Replace(item@),
            Expansion::Unchanged { item, diagnostic } => ExpansionV::Unchanged {
                item: item@,
                diagnostic: diagnostic@,
            },
        }
    }
}

/// The name of the attribute that triggers the expansion, `quickcheck`.
pub open spec fn marker_name() -> Seq<char> {
    "quickcheck"@
}

/// The name of the attribute that marks a test function, `test`.
pub open spec fn test_name() -> Seq<char> {
    "test"@
}

/// The message reported for a declaration that cannot be expanded.
pub open spec fn unsupported_message() -> Seq<char> {
    "#[quickcheck] only supported on statics and functions"@
}

/// `a` is the attribute that triggers the expansion.
pub open spec fn is_marker(a: AttributeV) -> bool {
    a.name == marker_name()
}

/// The attributes of `s` in order, without those that trigger the expansion.
pub open spec fn without_marker(s: Seq<AttributeV>) -> Seq<AttributeV>
    decreases s.len(),
{
    if s.len() == 0 {
        s
    } else {
        let rest = without_marker(s.drop_last());
        if is_marker(s.last()) {
            rest
        } else {
            rest.push(s.last())
        }
    }
}

/// `#[test]`, placed at `location`.
pub open spec fn test_attribute(location: Span) -> AttributeV {
    AttributeV { name: test_name(), args: Seq::empty(), span: location }
}

/// `::quickcheck::quickcheck(ident)`, placed at `location`.
pub open spec fn runner_call(location: Span, ident: Seq<char>) -> ExprV {
    ExprV::Call {
        callee: Box::new(
            ExprV::Path {
                path: PathV { global: true, segments: seq![marker_name(), marker_name()] },
                span: location,
            },
        ),
        args: seq![ExprV::Path { path: PathV { global: false, segments: seq![ident] }, span: location }],
        span: location,
    }
}

/// Functions and statics can be expanded; nothing else can.
pub open spec fn is_expandable(kind: ItemKindV) -> bool {
    kind is Fn || kind is Static
}

/// `item` with its attributes removed.
pub open spec fn bare(item: ItemV) -> ItemV {
    ItemV { attrs: Seq::empty(), ..item }
}

/// The test function that replaces `item`: same name and span, no
/// parameters, unit result, the attributes of `item` but the marker followed
/// by `#[test]`, and a body that declares the bare `item` and passes it to
/// the runner.
pub open spec fn wrapper(location: Span, item: ItemV) -> ItemV {
    ItemV {
        ident: item.ident,
        attrs: without_marker(item.attrs).push(test_attribute(location)),
        kind: ItemKindV::Fn {
            inputs: Seq::empty(),
            output: TyV::Unit,
            body: BlockV {
                stmts: seq![StmtV::Item { item: Box::new(bare(item)), span: location }],
                expr: Some(Box::new(runner_call(location, item.ident))),
                span: location,
            },
        },
        span: item.span,
    }
}

/// What expanding `item`, annotated at `location`, gives.
pub open spec fn expansion(location: Span, item: ItemV) -> ExpansionV {
    if is_expandable(item.kind) {
        ExpansionV::Replace(wrapper(location, item))
    } else {
        ExpansionV::Unchanged {
            item,
            diagnostic: DiagnosticV { message: unsupported_message(), span: location },
        }
    }
}

/// Removes the attributes that trigger the expansion, keeping the order of
/// the others.
fn strip_marker(attrs: Vec<Attribute>) -> (r: Vec<Attribute>)
    ensures
        attrs_view(r@) == without_marker(attrs_view(attrs@)),
{
    let ghost all = attrs@;
    let marker = String::from_str("quickcheck");
    let mut rest = attrs;
    let mut kept: Vec<Attribute> = Vec::new();
    while rest.len() > 0
        invariant
            rest@.len() <= all.len(),
            rest@ == all.subrange(all.len() - rest@.len(), all.len() as int),
            attrs_view(kept@) == without_marker(
                attrs_view(all.subrange(0, all.len() - rest@.len())),
            ),
            marker@ == marker_name(),
        decreases rest.len(),
    {
        let ghost done = all.len() - rest@.len();
        let a = rest.remove(0);
        let ghost prefix = attrs_view(all.subrange(0, done + 1));
        assert(prefix.drop_last() =~= attrs_view(all.subrange(0, done)));
        assert(prefix.last() == a@);
        assert(rest@ =~= all.subrange(all.len() - rest@.len(), all.len() as int));
        if a.name == marker {
            assert(attrs_view(kept@) == without_marker(prefix));
        } else {
            kept.push(a);
            assert(attrs_view(kept@) =~= without_marker(prefix));
        }
    }
    assert(all.subrange(0, all.len() as int) =~= all);
    kept
}

/// `::quickcheck::quickcheck(ident)`, placed at `location`.
fn make_runner_call(location: Span, ident: String) -> (r: Expr)
    ensures
        r@ == runner_call(location, ident@),
{
    let mut segments: Vec<String> = Vec::new();
    segments.push(String::from_str("quickcheck"));
    segments.push(String::from_str("quickcheck"));
    let callee = Expr::Path { path: Path { global: true, segments }, span: location };
    let mut local: Vec<String> = Vec::new();
    local.push(ident);
    let mut args: Vec<Expr> = Vec::new();
    args.push(Expr::Path { path: Path { global: false, segments: local }, span: location });
    let r = Expr::Call { callee: Box::new(callee), args, span: location };
    proof {
        assert(strings_view(segments@) =~= seq![marker_name(), marker_name()]);
        assert(callee@ == ExprV::Path {
            path: PathV { global: true, segments: seq![marker_name(), marker_name()] },
            span: location,
        });
        assert(strings_view(local@) =~= seq![ident@]);
        assert(exprs_view(args@) =~= seq![args@[0]@]) by {
            assert(args@.subrange(0, 0) =~= Seq::<Expr>::empty());
            assert(exprs_view(Seq::<Expr>::empty()) == Seq::<ExprV>::empty());
        }
        assert(r@ == ExprV::Call { callee: Box::new(callee@), args: exprs_view(args@), span: location });
    }
    r
}

/// Expands `item`, whose `#[quickcheck]` attribute stands at `location`.
///
/// A function or a static becomes a `#[test]` function of the same name
/// that declares it, without attributes, and calls
/// `::quickcheck::quickcheck` on it. Any other declaration comes back as it
/// was, with an error at `location`.
pub fn expand(location: Span, item: Item) -> (r: Expansion)
    ensures
        r@ == expansion(location, item@),
{
    let supported = match &item.kind {
        ItemKind::Fn { .. } | ItemKind::Static { .. } => true,
        _ => false,
    };
    if !supported {
        let diagnostic = Diagnostic {
            message: String::from_str("#[quickcheck] only supported on statics and functions"),
            span: location,
        };
        return Expansion::Unchanged { item, diagnostic };
    }
    let ghost original = item@;
    let Item { ident, attrs, kind, span } = item;
    let inner = Item { ident: ident.clone(), attrs: Vec::new(), kind, span };
    let call = make_runner_call(location, ident.clone());
    let mut stmts: Vec<Stmt> = Vec::new();
    stmts.push(Stmt::Item { item: Box::new(inner), span: location });
    let body = Block { stmts, expr: Some(Box::new(call)), span: location };
    let mut outer_attrs = strip_marker(attrs);
    let test = Attribute { name: String::from_str("test"), args: Vec::new(), span: location };
    outer_attrs.push(test);
    let kind = ItemKind::Fn { inputs: Vec::new(), output: Ty::Unit, body };
    let wrapped = Item { ident, attrs: outer_attrs, kind, span };
    proof {
        assert(inner@ == bare(original)) by {
            assert(attrs_view(inner.attrs@) =~= Seq::empty());
        }
        assert(stmts_view(stmts@) =~= seq![StmtV::Item { item: Box::new(bare(original)), span: location }]) by {
            assert(stmts@.subrange(0, 0) =~= Seq::<Stmt>::empty());
            assert(stmts_view(Seq::<Stmt>::empty()) == Seq::<StmtV>::empty());
        }
        assert(test@ == test_attribute(location)) by {
            assert(strings_view(test.args@) =~= Seq::empty());
        }
        assert(attrs_view(outer_attrs@) =~= without_marker(original.attrs).push(test_attribute(location)));
        assert(params_view(Seq::<Param>::empty()) =~= Seq::empty());
        assert(block_view(body) == wrapper(location, original).kind->Fn_body);
    }
    Expansion::Replace(wrapped)
}

} // verus!
