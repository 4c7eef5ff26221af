//! Properties of the expansion, stated over the views and proved.
use vstd::prelude::*;
use crate::ast::Span;
use crate::expand::{
    expansion, is_expandable, is_marker, marker_name, runner_call, test_attribute, test_name,
    unsupported_message, without_marker, wrapper, DiagnosticV, Expansion, ExpansionV,
};
use crate::ast::Item;
use crate::model::{AttributeV, BlockV, ItemKindV, ItemV, StmtV, TyV};

verus! {

/// How many attributes of `s` are named `name`.
pub open spec fn count_named(s: Seq<AttributeV>, name: Seq<char>) -> nat
    decreases s.len(),
{
    if s.len() == 0 {
        0
    } else {
        count_named(s.drop_last(), name) + if s.last().name == name {
            1nat
        } else {
            0nat
        }
    }
}

/// `w` is a test function for `item`: it keeps the name and the span, takes
/// no parameters and returns unit; its attributes are those of `item` without
/// the marker, followed by `#[test]`; its body declares `item` with no
/// attributes and ends by calling the runner on that name.
pub open spec fn is_wrapper_for(location: Span, item: ItemV, w: ItemV) -> bool {
    &&& w.ident == item.ident
    &&& w.span == item.span
    &&& w.attrs == without_marker(item.attrs).push(test_attribute(location))
    &&& w.kind == ItemKindV::Fn {
        inputs: Seq::empty(),
        output: TyV::Unit,
        body: BlockV {
            stmts: seq![
                StmtV::Item {
                    item: Box::new(
                        ItemV { ident: item.ident, attrs: Seq::empty(), kind: item.kind, span: item.span },
                    ),
                    span: location,
                },
            ],
            expr: Some(Box::new(runner_call(location, item.ident))),
            span: location,
        },
    }
}

/// A function declaration, whatever its parameters, result and body, is
/// replaced by a test function that nests it.
pub proof fn lemma_function_wrapped(location: Span, item: ItemV)
    requires
        item.kind is Fn,
    ensures
        expansion(location, item) is Replace,
        is_wrapper_for(location, item, expansion(location, item)->Replace_0),
{
}

/// A static, whatever its type and initializer, is replaced by a test
/// function of the same shape.
pub proof fn lemma_static_wrapped(location: Span, item: ItemV)
    requires
        item.kind is Static,
    ensures
        expansion(location, item) is Replace,
        is_wrapper_for(location, item, expansion(location, item)->Replace_0),
{
}

/// Any other declaration comes back exactly as it was, with one diagnostic
/// at the attribute's location.
pub proof fn lemma_unsupported_unchanged(location: Span, item: ItemV)
    requires
        !is_expandable(item.kind),
    ensures
        expansion(location, item) == (ExpansionV::Unchanged {
            item,
            diagnostic: DiagnosticV { message: unsupported_message(), span: location },
        }),
{
}

/// Expanding structurally equal declarations at the same location gives
/// structurally equal results.
pub proof fn lemma_expand_deterministic(
    location: Span,
    item1: Item,
    item2: Item,
    r1: Expansion,
    r2: Expansion,
)
    requires
        item1@ == item2@,
        r1@ == expansion(location, item1@),
        r2@ == expansion(location, item2@),
    ensures
        r1@ == r2@,
{
}

proof fn lemma_without_marker(s: Seq<AttributeV>)
    ensures
        forall|i: int| 0 <= i < without_marker(s).len() ==> !is_marker(#[trigger] without_marker(s)[i]),
        count_named(without_marker(s), test_name()) == count_named(s, test_name()),
    decreases s.len(),
{
    reveal_strlit("test");
    reveal_strlit("quickcheck");
    if s.len() > 0 {
        lemma_without_marker(s.drop_last());
        let rest = without_marker(s.drop_last());
        if !is_marker(s.last()) {
            assert(rest.push(s.last()).drop_last() =~= rest);
        } else {
            assert(test_name().len() != marker_name().len());
        }
    }
}

/// The marker never reaches the nested declaration, which has no attributes,
/// nor the wrapper; the wrapper has one `#[test]` more than the original, so
/// exactly one where the original had none.
pub proof fn lemma_marker_not_duplicated(location: Span, item: ItemV)
    requires
        is_expandable(item.kind),
    ensures
        ({
            let w = wrapper(location, item);
            &&& w.kind->Fn_body.stmts[0]->Item_item.attrs.len() == 0
            &&& forall|i: int| 0 <= i < w.attrs.len() ==> !is_marker(#[trigger] w.attrs[i])
            &&& count_named(w.attrs, test_name()) == count_named(item.attrs, test_name()) + 1
            &&& count_named(item.attrs, test_name()) == 0 ==> count_named(w.attrs, test_name()) == 1
        }),
{
    reveal_strlit("test");
    reveal_strlit("quickcheck");
    lemma_without_marker(item.attrs);
    let kept = without_marker(item.attrs);
    let w = wrapper(location, item);
    assert(w.attrs.drop_last() =~= kept);
    assert(test_name().len() != marker_name().len());
    assert forall|i: int| 0 <= i < w.attrs.len() implies !is_marker(#[trigger] w.attrs[i]) by {
        if i < kept.len() {
            assert(w.attrs[i] == kept[i]);
        }
    }
}

} // verus!
