//! The `#[quickcheck]` attribute expander.
//!
//! A function or a static annotated with `#[quickcheck]` is rewritten into a
//! zero-argument `#[test]` function that nests the original declaration and
//! hands it to `::quickcheck::quickcheck`. Any other kind of declaration is
//! passed through unchanged, together with an error diagnostic.
//!
//! The syntax tree lives in [`ast`]; every node has a view in [`model`], and
//! [`expand`] is specified by a spec function over those views.
pub mod ast;
pub mod model;
pub mod expand;
pub mod laws;
pub mod registry;

pub use expand::{expand, Diagnostic, Expansion};
pub use registry::plugin_registrar;
