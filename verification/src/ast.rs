//! The declaration grammar the engine works over, together with its
//! mathematical model: every executable node kind has a ghost mirror over
//! `Seq` and `Seq<char>`, reached through `view`.

use vstd::prelude::*;

verus! {

// ---------------------------------------------------------------------------
// Plain enums, shared between executable and ghost code.
// ---------------------------------------------------------------------------

/// Visibility of a declaration or item.
#[derive(Clone, Copy, Debug, PartialEq, Eq, Structural)]
pub enum Vis {
    Public,
    Crate,
    Inherited,
}

/// The receiver form of a method signature.
#[derive(Clone, Copy, Debug, PartialEq, Eq, Structural)]
pub enum Receiver {
    Absent,
    Shared,
    Exclusive,
    Owned,
}

// ---------------------------------------------------------------------------
// Executable type expressions and paths.
// ---------------------------------------------------------------------------

/// One segment of a path: an identifier and its generic arguments.
#[derive(Debug, PartialEq, Eq)]
pub struct PathSeg {
    pub ident: String,
    pub args: PathArgs,
}

/// The generic arguments attached to a path segment.
#[derive(Debug, PartialEq, Eq)]
pub enum PathArgs {
    /// No argument list at all.
    Absent,
    /// Angle-bracketed arguments, possibly zero of them.
    AngleBracketed(Vec<GenericArg>),
    /// Parenthesized, call-like arguments (function-trait sugar).
    Parenthesized,
}

/// One generic argument at a use site.
#[derive(Debug, PartialEq, Eq)]
pub enum GenericArg {
    Ty(TypeExpr),
    Lt(String),
}

/// A (possibly multi-segment) path.
#[derive(Debug, PartialEq, Eq)]
pub struct Path {
    pub leading_colon: bool,
    pub segs: Vec<PathSeg>,
}

/// A bound on a type parameter, trait object, or opaque return type.
#[derive(Debug, PartialEq, Eq)]
pub enum Bound {
    TraitBound(Path),
    Outlives(String),
}

/// A type expression: the closed set of node kinds substitution walks.
#[derive(Debug, PartialEq, Eq)]
pub enum TypeExpr {
    Slice(Box<TypeExpr>),
    Array(Box<TypeExpr>, u64),
    /// `*const`/`*mut`; the flag is whether it is mutable.
    RawPtr(bool, Box<TypeExpr>),
    /// Lifetime, mutability, referent.
    Ref(Option<String>, bool, Box<TypeExpr>),
    /// Function pointer: input types and optional return type.
    BareFn(Vec<TypeExpr>, Option<Box<TypeExpr>>),
    Tup(Vec<TypeExpr>),
    /// A named path, with a flag for an explicit self-qualifier clause.
    NamedPath(bool, Path),
    TraitObject(Vec<Bound>),
    /// An opaque return type (`impl` bounds).
    OpaqueReturn(Vec<Bound>),
    Paren(Box<TypeExpr>),
    Group(Box<TypeExpr>),
    /// A macro-produced type: substitution cannot see inside it.
    MacroTy,
    /// A verbatim/unparsed type: substitution cannot see inside it.
    VerbatimTy,
    Infer,
    Never,
}

// ---------------------------------------------------------------------------
// Executable generics and signatures.
// ---------------------------------------------------------------------------

/// One parameter of a generic parameter list.
#[derive(Debug, PartialEq, Eq)]
pub enum GenericParam {
    TyParam { ident: String, bounds: Vec<Bound> },
    LtParam { ident: String, bounds: Vec<String> },
    ConstParam { ident: String },
}

/// A generic parameter list. `bracketed` distinguishes a list that appears
/// in the source (even with zero parameters) from no list at all.
#[derive(Debug, PartialEq, Eq)]
pub struct Generics {
    pub bracketed: bool,
    pub params: Vec<GenericParam>,
    pub has_where_clause: bool,
}

/// A value parameter of a function signature.
#[derive(Debug, PartialEq, Eq)]
pub struct Param {
    pub name: String,
    pub ty: TypeExpr,
}

/// The declaration part of a function: generics, receiver, parameters,
/// return type, and whether the signature is variadic.
#[derive(Debug, PartialEq, Eq)]
pub struct FnDecl {
    pub generics: Generics,
    pub receiver: Receiver,
    pub params: Vec<Param>,
    pub ret: Option<TypeExpr>,
    pub variadic: bool,
}

/// A full method or function signature.
#[derive(Debug, PartialEq, Eq)]
pub struct Sig {
    pub is_const: bool,
    pub is_unsafe: bool,
    pub is_async: bool,
    pub ident: String,
    pub decl: FnDecl,
}

// ---------------------------------------------------------------------------
// Executable declarations.
// ---------------------------------------------------------------------------

/// An item of a trait declaration.
#[derive(Debug, PartialEq, Eq)]
pub enum TraitItem {
    AssocTy { ident: String, bounds: Vec<Bound>, default_ty: Option<TypeExpr> },
    Method(Sig),
}

/// A trait declaration.
#[derive(Debug, PartialEq, Eq)]
pub struct TraitDecl {
    pub vis: Vis,
    pub is_unsafe: bool,
    pub ident: String,
    pub generics: Generics,
    pub items: Vec<TraitItem>,
}

/// An item of an impl block.
#[derive(Debug, PartialEq, Eq)]
pub enum ImplItem {
    /// A const item; dropped, since a test author can supply it separately.
    ConstItem,
    Method(Sig),
    /// Any other impl item kind.
    UnsupportedItem,
}

/// An impl block: `impl<G> Trait for SelfTy { .. }` or an inherent impl.
#[derive(Debug, PartialEq, Eq)]
pub struct ImplBlock {
    pub is_unsafe: bool,
    pub generics: Generics,
    pub trait_path: Option<Path>,
    pub self_ty: TypeExpr,
    pub items: Vec<ImplItem>,
}

/// An item of a foreign-function block. Items that are copied through
/// unchanged carry their source text.
#[derive(Debug, PartialEq, Eq)]
pub enum ForeignItem {
    ForeignFn { vis: Vis, ident: String, decl: FnDecl },
    ForeignStatic(String),
    ForeignTy(String),
    ForeignMacro,
    ForeignVerbatim,
}

/// A foreign-function block.
#[derive(Debug, PartialEq, Eq)]
pub struct ForeignBlock {
    pub items: Vec<ForeignItem>,
}

/// An item of a module body. Items that are copied through unchanged carry
/// their source text.
#[derive(Debug, PartialEq, Eq)]
pub enum ModItem {
    ModFn { vis: Vis, sig: Sig },
    ModStatic(String),
    ModConst(String),
    ModTyAlias(String),
    ModTraitAlias(String),
    /// Imports, crate-import items, and impl items: irrelevant to mocking.
    ModIgnored,
    /// A nested scope: module, foreign block, struct, enum, union, or trait.
    ModNested,
    ModMacro,
    ModVerbatim,
}

/// A module declaration; `content` is absent for a bare `mod name;`.
#[derive(Debug, PartialEq, Eq)]
pub struct ModuleDecl {
    pub ident: String,
    pub content: Option<Vec<ModItem>>,
}

/// The classified target declaration handed to the dispatch entry point.
#[derive(Debug, PartialEq, Eq)]
pub enum Decl {
    Trait(TraitDecl),
    Impl(ImplBlock),
    Foreign(ForeignBlock),
    Module(ModuleDecl),
    Unsupported,
}

// ---------------------------------------------------------------------------
// Configuration directives.
// ---------------------------------------------------------------------------

/// One directive of the attribute configuration, as the parser hands it over.
#[derive(Debug, PartialEq, Eq)]
pub enum Directive {
    /// `mod <ident>;` or, illegally, `mod <ident> { .. }`.
    ModDirective { ident: String, has_body: bool },
    /// `type <ident> = <ty>;` or, illegally, `type <ident>;`.
    TypeDirective { ident: String, default_ty: Option<TypeExpr> },
    /// Any other token shape.
    UnknownDirective,
}

/// One associated-type substitution.
#[derive(Debug, PartialEq, Eq)]
pub struct Subst {
    pub key: String,
    pub ty: TypeExpr,
}

/// The parsed, immutable configuration.
#[derive(Debug, PartialEq, Eq)]
pub struct Config {
    pub subs: Vec<Subst>,
    pub modname: Option<String>,
}

// ---------------------------------------------------------------------------
// Synthesis output.
// ---------------------------------------------------------------------------

/// The handoff payload for the external code builder.
#[derive(Debug, PartialEq, Eq)]
pub struct MockSpec {
    pub vis: Vis,
    pub name: String,
    pub generics: Generics,
    pub methods: Vec<Sig>,
    pub traits: Vec<TraitDecl>,
}

/// One generated mock function: its lock-guarded expectation store, the mock
/// function itself, and its expectation accessor.
#[derive(Debug, PartialEq, Eq)]
pub struct FnMock {
    pub vis: Vis,
    pub is_const: bool,
    pub is_unsafe: bool,
    pub is_async: bool,
    pub ident: String,
    pub generics: Generics,
    pub params: Vec<Param>,
    pub ret: Option<TypeExpr>,
    /// Name of the process-wide expectation store: `<ident>_expectation`.
    pub store_ident: String,
    /// Name of the accessor: `expect_<ident>`.
    pub expect_ident: String,
    /// The accessor's generics: the function's own plus the guard lifetime.
    pub expect_generics: Generics,
    /// The store's element types: the parameter types as an ordered tuple.
    pub input_tys: Vec<TypeExpr>,
    /// The argument names dispatched to the store, in order.
    pub arg_names: Vec<String>,
}

/// One emitted item of a mocked module.
#[derive(Debug, PartialEq, Eq)]
pub enum Emitted {
    MockFn(FnMock),
    /// Source text copied through unchanged.
    Passthrough(String),
}

/// The module of mock functions emitted for a foreign block or a module.
#[derive(Debug, PartialEq, Eq)]
pub struct MockModule {
    pub ident: String,
    pub items: Vec<Emitted>,
    /// The store names the checkpoint function verifies, in declaration order.
    pub checkpoint: Vec<String>,
}

/// What synthesis produces: a builder handoff or an emitted module.
#[derive(Debug, PartialEq, Eq)]
pub enum Output {
    Handoff(MockSpec),
    Emission(MockModule),
}

} // verus!
