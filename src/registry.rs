//! Registration of the expander under the attribute name `quickcheck`.
use vstd::prelude::*;
use crate::ast::{Item, Span};
use crate::expand::{expand, expansion, marker_name, Expansion};

verus! {

/// An item rewriter supplied by this library.
#[derive(Clone, Copy, Debug, PartialEq, Eq, Structural)]
pub enum Expander {
    Quickcheck,
}

impl Expander {
    /// Rewrites `item`, annotated at `location`, as this expander does.
    pub fn apply(&self, location: Span, item: Item) -> (r: Expansion)
        ensures
            r@ == expansion(location, item@),
    {
        match self {
            Expander::Quickcheck => expand(location, item),
        }
    }
}

/// How a registered attribute rewrites what it is attached to.
#[derive(Clone, Copy, Debug, PartialEq, Eq, Structural)]
pub enum SyntaxExtension {
    /// One item in, one item out.
    Modifier(Expander),
}

/// One entry of the registry: an attribute name and its extension.
#[derive(Debug, PartialEq, Eq)]
pub struct Registration {
    pub name: String,
    pub extension: SyntaxExtension,
}

/// The table of syntax extensions, in the order they were registered.
#[derive(Debug, PartialEq, Eq)]
pub struct Registry {
    pub syntax_exts: Vec<Registration>,
}

impl Registry {
    /// An empty registry.
    pub fn new() -> (r: Registry)
        ensures
            r.syntax_exts@.len() == 0,
    {
        Registry { syntax_exts: Vec::new() }
    }

    /// Adds `extension` under `name`, after the entries already there.
    pub fn register_syntax_extension(&mut self, name: String, extension: SyntaxExtension)
        ensures
            final(self).syntax_exts@ == old(self).syntax_exts@.push(
                Registration { name, extension },
            ),
    {
        self.syntax_exts.push(Registration { name, extension });
    }
}

/// Registers the `#[quickcheck]` expander as a modifier.
pub fn plugin_registrar(reg: &mut Registry)
    ensures
        final(reg).syntax_exts@.len() == old(reg).syntax_exts@.len() + 1,
        final(reg).syntax_exts@.drop_last() == old(reg).syntax_exts@,
        final(reg).syntax_exts@.last().name@ == marker_name(),
        final(reg).syntax_exts@.last().extension == SyntaxExtension::Modifier(Expander::Quickcheck),
{
    reg.register_syntax_extension(
        String::from_str("quickcheck"),
        SyntaxExtension::Modifier(Expander::Quickcheck),
    );
    assert(reg.syntax_exts@.drop_last() =~= old(reg).syntax_exts@);
}

} // verus!
