//! Mock-synthesis engine: analyses a declaration (a trait, an impl block, a
//! foreign-function block, or a module), applies the configured associated-type
//! substitutions, filters generic parameter lists down to the parameters a use
//! site actually references, and produces either a mock specification for the
//! code builder or a description of the module of mock functions to emit.

use vstd::prelude::*;

pub mod ast;
pub mod attrs;
pub mod dup;
pub mod generics;
pub mod laws;
pub mod model;
pub mod subst;
pub mod synth;

verus! {

/// A diagnostic: the single failure reported in place of generated code.
#[derive(Clone, Copy, Debug, PartialEq, Eq, Structural)]
pub enum Diag {
    /// A configuration directive had an unrecognized shape.
    BadDirective,
    /// A module-rename directive carried a body instead of a bare `mod name;`.
    ModDirectiveWithBody,
    /// A type-substitution directive lacked its required concrete type.
    TypeDirectiveWithoutDefault,
    /// The foreign-block strategy was invoked without a module-rename directive.
    MissingModuleName,
    /// A qualified self path (with an explicit disambiguation clause).
    QualifiedSelfPath,
    /// A macro-produced or verbatim type node, which substitution cannot see inside.
    OpaqueTypeNode,
    /// A trait-bound substitution resolved to something other than a simple path.
    NonPathBoundSubstitution,
    /// An associated type had no configured concrete substitution.
    MissingAssociatedDefault,
    /// Use-site generic arguments in parenthesized, call-like form.
    FnTraitArguments,
    /// A generic parameter list carrying a where-clause.
    WhereClauseUnsupported,
    /// A path spanning more than one segment where a plain identifier is required.
    MultiSegmentPath,
    /// A self type that is not a plain named path.
    NonPathSelfType,
    /// A variadic function signature.
    VariadicFunction,
    /// An impl item of a kind that cannot be mocked.
    UnsupportedImplItem,
    /// A nested scope (module, struct, enum, union, or trait) inside a mocked module.
    NestedItem,
    /// A macro item inside a foreign block or module body.
    MacroItem,
    /// An item the parser handed over without recognizing its structure.
    UnrecognizedItem,
    /// A declaration kind outside the four that can be mocked.
    UnsupportedDeclaration,
}

} // verus!
