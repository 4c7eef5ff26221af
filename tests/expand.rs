use quickcheck_macros::ast::{
    Attribute, Block, Expr, Field, Item, ItemKind, Lit, Param, Pat, Path, Span, Stmt, Ty,
};
use quickcheck_macros::{expand, Diagnostic, Expansion};

const UNSUPPORTED: &str = "#[quickcheck] only supported on statics and functions";

fn sp(lo: u32, hi: u32) -> Span {
    Span { lo, hi }
}

fn attr(name: &str, args: &[&str], span: Span) -> Attribute {
    Attribute {
        name: name.to_string(),
        args: args.iter().map(|a| a.to_string()).collect(),
        span,
    }
}

fn path(global: bool, segments: &[&str]) -> Path {
    Path { global, segments: segments.iter().map(|s| s.to_string()).collect() }
}

fn named_ty(name: &str) -> Ty {
    Ty::Path(path(false, &[name]))
}

fn bool_body(span: Span) -> Block {
    Block {
        stmts: Vec::new(),
        expr: Some(Box::new(Expr::Lit { lit: Lit::Bool(true), span })),
        span,
    }
}

/// `fn check_something(_: usize) -> bool { true }` with the given attributes.
fn check_something(attrs: Vec<Attribute>) -> Item {
    Item {
        ident: "check_something".to_string(),
        attrs,
        kind: ItemKind::Fn {
            inputs: vec![Param { pat: Pat::Wild, ty: named_ty("usize") }],
            output: named_ty("bool"),
            body: bool_body(sp(60, 68)),
        },
        span: sp(14, 70),
    }
}

/// `static check_const: fn(u32) -> bool = |_x: u32| true;` with the given attributes.
fn check_const(attrs: Vec<Attribute>) -> Item {
    Item {
        ident: "check_const".to_string(),
        attrs,
        kind: ItemKind::Static {
            ty: Ty::FnPtr { inputs: vec![named_ty("u32")], output: Box::new(named_ty("bool")) },
            mutable: false,
            init: Expr::Closure {
                params: vec![Param { pat: Pat::Ident("_x".to_string()), ty: named_ty("u32") }],
                body: Box::new(Expr::Lit { lit: Lit::Bool(true), span: sp(90, 94) }),
                span: sp(80, 94),
            },
        },
        span: sp(40, 95),
    }
}

fn foo_struct(attrs: Vec<Attribute>) -> Item {
    Item {
        ident: "Foo".to_string(),
        attrs,
        kind: ItemKind::Struct {
            fields: vec![Field { ident: "x".to_string(), ty: named_ty("u32") }],
        },
        span: sp(14, 40),
    }
}

fn runner_call(location: Span, name: &str) -> Expr {
    Expr::Call {
        callee: Box::new(Expr::Path { path: path(true, &["quickcheck", "quickcheck"]), span: location }),
        args: vec![Expr::Path { path: path(false, &[name]), span: location }],
        span: location,
    }
}

/// The wrapper the expander is expected to build around `inner`.
fn expected_wrapper(location: Span, ident: &str, attrs: Vec<Attribute>, inner: Item, span: Span) -> Item {
    Item {
        ident: ident.to_string(),
        attrs,
        kind: ItemKind::Fn {
            inputs: Vec::new(),
            output: Ty::Unit,
            body: Block {
                stmts: vec![Stmt::Item { item: Box::new(inner), span: location }],
                expr: Some(Box::new(runner_call(location, ident))),
                span: location,
            },
        },
        span,
    }
}

fn replaced(r: Expansion) -> Item {
    match r {
        Expansion::Replace(item) => item,
        Expansion::Unchanged { .. } => panic!("expected the declaration to be replaced"),
    }
}

#[test]
fn function_becomes_test_wrapper() {
    let location = sp(0, 13);
    let item = check_something(vec![attr("quickcheck", &[], location)]);
    let w = replaced(expand(location, item));
    let expected = expected_wrapper(
        location,
        "check_something",
        vec![attr("test", &[], location)],
        check_something(Vec::new()),
        sp(14, 70),
    );
    assert_eq!(w, expected);
}

#[test]
fn static_becomes_test_wrapper() {
    let location = sp(0, 13);
    let item = check_const(vec![
        attr("quickcheck", &[], location),
        attr("allow", &["dead_code"], sp(20, 38)),
    ]);
    let w = replaced(expand(location, item));
    let expected = expected_wrapper(
        location,
        "check_const",
        vec![attr("allow", &["dead_code"], sp(20, 38)), attr("test", &[], location)],
        check_const(Vec::new()),
        sp(40, 95),
    );
    assert_eq!(w, expected);
}

#[test]
fn struct_is_rejected_unchanged() {
    let location = sp(0, 13);
    let r = expand(location, foo_struct(vec![attr("quickcheck", &[], location)]));
    let expected = Expansion::Unchanged {
        item: foo_struct(vec![attr("quickcheck", &[], location)]),
        diagnostic: Diagnostic { message: UNSUPPORTED.to_string(), span: location },
    };
    assert_eq!(r, expected);
    match r {
        Expansion::Unchanged { diagnostic, .. } => {
            assert!(diagnostic.message.ends_with("only supported on statics and functions"));
        }
        Expansion::Replace(_) => panic!("a struct cannot be expanded"),
    }
}

#[test]
fn other_kinds_are_rejected() {
    let location = sp(3, 9);
    let kinds = vec![
        ItemKind::Const { ty: named_ty("u32"), init: Expr::Lit { lit: Lit::Int(7), span: sp(20, 21) } },
        ItemKind::Enum { variants: vec!["A".to_string(), "B".to_string()] },
        ItemKind::Mod { items: vec![foo_struct(Vec::new())] },
        ItemKind::Use { path: path(true, &["std", "vec", "Vec"]) },
        ItemKind::Struct { fields: Vec::new() },
    ];
    for kind in kinds {
        let make = |kind: ItemKind| Item {
            ident: "other".to_string(),
            attrs: vec![attr("quickcheck", &[], location), attr("doc", &["x"], sp(10, 12))],
            kind,
            span: sp(10, 30),
        };
        let kept = match &kind {
            ItemKind::Const { init: Expr::Lit { lit: Lit::Int(n), span }, .. } => ItemKind::Const {
                ty: named_ty("u32"),
                init: Expr::Lit { lit: Lit::Int(*n), span: *span },
            },
            ItemKind::Enum { variants } => ItemKind::Enum { variants: variants.clone() },
            ItemKind::Mod { .. } => ItemKind::Mod { items: vec![foo_struct(Vec::new())] },
            ItemKind::Use { .. } => ItemKind::Use { path: path(true, &["std", "vec", "Vec"]) },
            _ => ItemKind::Struct { fields: Vec::new() },
        };
        let r = expand(location, make(kind));
        assert_eq!(
            r,
            Expansion::Unchanged {
                item: make(kept),
                diagnostic: Diagnostic { message: UNSUPPORTED.to_string(), span: location },
            }
        );
    }
}

#[test]
fn function_without_attributes_gets_only_test() {
    let location = sp(1, 2);
    let w = replaced(expand(location, check_something(Vec::new())));
    assert_eq!(w.attrs, vec![attr("test", &[], location)]);
}

#[test]
fn other_attributes_keep_their_order() {
    let location = sp(30, 43);
    let item = check_something(vec![
        attr("inline", &[], sp(0, 9)),
        attr("quickcheck", &[], location),
        attr("allow", &["unused", "dead_code"], sp(10, 29)),
    ]);
    let w = replaced(expand(location, item));
    assert_eq!(
        w.attrs,
        vec![
            attr("inline", &[], sp(0, 9)),
            attr("allow", &["unused", "dead_code"], sp(10, 29)),
            attr("test", &[], location),
        ]
    );
}

#[test]
fn marker_never_reaches_wrapper_or_nested_item() {
    let location = sp(0, 13);
    let item = check_const(vec![
        attr("quickcheck", &[], location),
        attr("allow", &["dead_code"], sp(20, 38)),
        attr("quickcheck", &[], sp(39, 40)),
    ]);
    let w = replaced(expand(location, item));
    assert!(w.attrs.iter().all(|a| a.name != "quickcheck"));
    assert_eq!(w.attrs.iter().filter(|a| a.name == "test").count(), 1);
    match &w.kind {
        ItemKind::Fn { body, .. } => match &body.stmts[0] {
            Stmt::Item { item, .. } => assert!(item.attrs.is_empty()),
            Stmt::Semi { .. } => panic!("the body must start with the nested declaration"),
        },
        _ => panic!("the wrapper must be a function"),
    }
}

#[test]
fn existing_test_attribute_gets_one_more() {
    let location = sp(0, 13);
    let item = check_something(vec![attr("test", &[], sp(20, 27)), attr("quickcheck", &[], location)]);
    let w = replaced(expand(location, item));
    assert_eq!(w.attrs, vec![attr("test", &[], sp(20, 27)), attr("test", &[], location)]);
}

#[test]
fn expand_is_deterministic() {
    let location = sp(0, 13);
    let a = expand(location, check_const(vec![attr("quickcheck", &[], location)]));
    let b = expand(location, check_const(vec![attr("quickcheck", &[], location)]));
    assert_eq!(a, b);
    let c = expand(location, foo_struct(Vec::new()));
    let d = expand(location, foo_struct(Vec::new()));
    assert_eq!(c, d);
}

#[test]
fn wrapper_keeps_name_and_span_and_uses_location() {
    let location = sp(100, 113);
    let w = replaced(expand(location, check_something(vec![attr("quickcheck", &[], location)])));
    assert_eq!(w.ident, "check_something");
    assert_eq!(w.span, sp(14, 70));
    match w.kind {
        ItemKind::Fn { inputs, output, body } => {
            assert!(inputs.is_empty());
            assert_eq!(output, Ty::Unit);
            assert_eq!(body.span, location);
            assert_eq!(body.stmts.len(), 1);
            assert_eq!(body.expr, Some(Box::new(runner_call(location, "check_something"))));
        }
        _ => panic!("the wrapper must be a function"),
    }
}

#[test]
fn mutable_static_is_wrapped() {
    let location = sp(0, 13);
    let item = Item {
        ident: "counter".to_string(),
        attrs: vec![attr("quickcheck", &[], location)],
        kind: ItemKind::Static {
            ty: named_ty("u32"),
            mutable: true,
            init: Expr::Lit { lit: Lit::Str("s".to_string()), span: sp(30, 33) },
        },
        span: sp(14, 34),
    };
    let w = replaced(expand(location, item));
    let inner = Item {
        ident: "counter".to_string(),
        attrs: Vec::new(),
        kind: ItemKind::Static {
            ty: named_ty("u32"),
            mutable: true,
            init: Expr::Lit { lit: Lit::Str("s".to_string()), span: sp(30, 33) },
        },
        span: sp(14, 34),
    };
    assert_eq!(w, expected_wrapper(location, "counter", vec![attr("test", &[], location)], inner, sp(14, 34)));
}
