//! Ghost mirrors of the grammar in `ast`, and the view functions that map
//! executable values onto them. Identifiers become `Seq<char>`, vectors
//! become `Seq`, and every contract in the crate speaks over these mirrors.

use vstd::prelude::*;
use crate::ast::{
    Bound, Config, Decl, Directive, Emitted, FnDecl, FnMock, ForeignBlock, ForeignItem,
    GenericArg, GenericParam, Generics, ImplBlock, ImplItem, MockModule, MockSpec, ModItem,
    ModuleDecl, Output, Param, Path, PathArgs, PathSeg, Receiver, Sig, Subst, TraitDecl,
    TraitItem, TypeExpr, Vis,
};

verus! {

// ---------------------------------------------------------------------------
// Ghost mirrors.
// ---------------------------------------------------------------------------

pub struct PathSegV {
    pub ident: Seq<char>,
    pub args: PathArgsV,
}

pub enum PathArgsV {
    Absent,
    AngleBracketed(Seq<GenericArgV>),
    Parenthesized,
}

pub enum GenericArgV {
    Ty(TypeV),
    Lt(Seq<char>),
}

pub struct PathV {
    pub leading_colon: bool,
    pub segs: Seq<PathSegV>,
}

pub enum BoundV {
    TraitBound(PathV),
    Outlives(Seq<char>),
}

pub enum TypeV {
    Slice(Box<TypeV>),
    Array(Box<TypeV>, u64),
    RawPtr(bool, Box<TypeV>),
    Ref(Option<Seq<char>>, bool, Box<TypeV>),
    BareFn(Seq<TypeV>, Option<Box<TypeV>>),
    Tup(Seq<TypeV>),
    NamedPath(bool, PathV),
    TraitObject(Seq<BoundV>),
    OpaqueReturn(Seq<BoundV>),
    Paren(Box<TypeV>),
    Group(Box<TypeV>),
    MacroTy,
    VerbatimTy,
    Infer,
    Never,
}

pub enum GenericParamV {
    TyParam { ident: Seq<char>, bounds: Seq<BoundV> },
    LtParam { ident: Seq<char>, bounds: Seq<Seq<char>> },
    ConstParam { ident: Seq<char> },
}

pub struct GenericsV {
    pub bracketed: bool,
    pub params: Seq<GenericParamV>,
    pub has_where_clause: bool,
}

pub struct ParamV {
    pub name: Seq<char>,
    pub ty: TypeV,
}

pub struct FnDeclV {
    pub generics: GenericsV,
    pub receiver: Receiver,
    pub params: Seq<ParamV>,
    pub ret: Option<TypeV>,
    pub variadic: bool,
}

pub struct SigV {
    pub is_const: bool,
    pub is_unsafe: bool,
    pub is_async: bool,
    pub ident: Seq<char>,
    pub decl: FnDeclV,
}

pub enum TraitItemV {
    AssocTy { ident: Seq<char>, bounds: Seq<BoundV>, default_ty: Option<TypeV> },
    Method(SigV),
}

pub struct TraitDeclV {
    pub vis: Vis,
    pub is_unsafe: bool,
    pub ident: Seq<char>,
    pub generics: GenericsV,
    pub items: Seq<TraitItemV>,
}

pub enum ImplItemV {
    ConstItem,
    Method(SigV),
    UnsupportedItem,
}

pub struct ImplBlockV {
    pub is_unsafe: bool,
    pub generics: GenericsV,
    pub trait_path: Option<PathV>,
    pub self_ty: TypeV,
    pub items: Seq<ImplItemV>,
}

pub enum ForeignItemV {
    ForeignFn { vis: Vis, ident: Seq<char>, decl: FnDeclV },
    ForeignStatic(Seq<char>),
    ForeignTy(Seq<char>),
    ForeignMacro,
    ForeignVerbatim,
}

pub struct ForeignBlockV {
    pub items: Seq<ForeignItemV>,
}

pub enum ModItemV {
    ModFn { vis: Vis, sig: SigV },
    ModStatic(Seq<char>),
    ModConst(Seq<char>),
    ModTyAlias(Seq<char>),
    ModTraitAlias(Seq<char>),
    ModIgnored,
    ModNested,
    ModMacro,
    ModVerbatim,
}

pub struct ModuleDeclV {
    pub ident: Seq<char>,
    pub content: Option<Seq<ModItemV>>,
}

pub enum DeclV {
    Trait(TraitDeclV),
    Impl(ImplBlockV),
    Foreign(ForeignBlockV),
    Module(ModuleDeclV),
    Unsupported,
}

pub enum DirectiveV {
    ModDirective { ident: Seq<char>, has_body: bool },
    TypeDirective { ident: Seq<char>, default_ty: Option<TypeV> },
    UnknownDirective,
}

pub struct SubstV {
    pub key: Seq<char>,
    pub ty: TypeV,
}

pub struct ConfigV {
    pub subs: Seq<SubstV>,
    pub modname: Option<Seq<char>>,
}

pub struct MockSpecV {
    pub vis: Vis,
    pub name: Seq<char>,
    pub generics: GenericsV,
    pub methods: Seq<SigV>,
    pub traits: Seq<TraitDeclV>,
}

pub struct FnMockV {
    pub vis: Vis,
    pub is_const: bool,
    pub is_unsafe: bool,
    pub is_async: bool,
    pub ident: Seq<char>,
    pub generics: GenericsV,
    pub params: Seq<ParamV>,
    pub ret: Option<TypeV>,
    pub store_ident: Seq<char>,
    pub expect_ident: Seq<char>,
    pub expect_generics: GenericsV,
    pub input_tys: Seq<TypeV>,
    pub arg_names: Seq<Seq<char>>,
}

pub enum EmittedV {
    MockFn(FnMockV),
    Passthrough(Seq<char>),
}

pub struct MockModuleV {
    pub ident: Seq<char>,
    pub items: Seq<EmittedV>,
    pub checkpoint: Seq<Seq<char>>,
}

pub enum OutputV {
    Handoff(MockSpecV),
    Emission(MockModuleV),
}

// ---------------------------------------------------------------------------
// View functions: the recursive group over type expressions.
// ---------------------------------------------------------------------------

pub open spec fn ty_view(t: TypeExpr) -> TypeV
    decreases t,
{
    match t {
        TypeExpr::Slice(e) => TypeV::Slice(Box::new(ty_view(*e))),
        TypeExpr::Array(e, n) => TypeV::Array(Box::new(ty_view(*e)), n),
        TypeExpr::RawPtr(m, e) => TypeV::RawPtr(m, Box::new(ty_view(*e))),
        TypeExpr::Ref(lt, m, e) => TypeV::Ref(opt_str_view(lt), m, Box::new(ty_view(*e))),
        TypeExpr::BareFn(ins, out) => TypeV::BareFn(
            tys_view(ins@),
            match out {
                Some(o) => Some(Box::new(ty_view(*o))),
                None => None,
            },
        ),
        TypeExpr::Tup(ts) => TypeV::Tup(tys_view(ts@)),
        TypeExpr::NamedPath(q, p) => TypeV::NamedPath(q, path_view(p)),
        TypeExpr::TraitObject(bs) => TypeV::TraitObject(bounds_view(bs@)),
        TypeExpr::OpaqueReturn(bs) => TypeV::OpaqueReturn(bounds_view(bs@)),
        TypeExpr::Paren(e) => TypeV::Paren(Box::new(ty_view(*e))),
        TypeExpr::Group(e) => TypeV::Group(Box::new(ty_view(*e))),
        TypeExpr::MacroTy => TypeV::MacroTy,
        TypeExpr::VerbatimTy => TypeV::VerbatimTy,
        TypeExpr::Infer => TypeV::Infer,
        TypeExpr::Never => TypeV::Never,
    }
}

pub open spec fn tys_view(ts: Seq<TypeExpr>) -> Seq<TypeV>
    decreases ts,
{
    if ts.len() == 0 {
        Seq::empty()
    } else {
        tys_view(ts.drop_last()).push(ty_view(ts.last()))
    }
}

pub open spec fn path_view(p: Path) -> PathV
    decreases p,
{
    PathV { leading_colon: p.leading_colon, segs: segs_view(p.segs@) }
}

pub open spec fn segs_view(ss: Seq<PathSeg>) -> Seq<PathSegV>
    decreases ss,
{
    if ss.len() == 0 {
        Seq::empty()
    } else {
        segs_view(ss.drop_last()).push(seg_view(ss.last()))
    }
}

pub open spec fn seg_view(s: PathSeg) -> PathSegV
    decreases s,
{
    PathSegV { ident: s.ident@, args: pathargs_view(s.args) }
}

pub open spec fn pathargs_view(a: PathArgs) -> PathArgsV
    decreases a,
{
    match a {
        PathArgs::Absent => PathArgsV::Absent,
        PathArgs::AngleBracketed(gs) => PathArgsV::AngleBracketed(gargs_view(gs@)),
        PathArgs::Parenthesized => PathArgsV::Parenthesized,
    }
}

pub open spec fn gargs_view(gs: Seq<GenericArg>) -> Seq<GenericArgV>
    decreases gs,
{
    if gs.len() == 0 {
        Seq::empty()
    } else {
        gargs_view(gs.drop_last()).push(garg_view(gs.last()))
    }
}

pub open spec fn garg_view(g: GenericArg) -> GenericArgV
    decreases g,
{
    match g {
        GenericArg::Ty(t) => GenericArgV::Ty(ty_view(t)),
        GenericArg::Lt(l) => GenericArgV::Lt(l@),
    }
}

pub open spec fn bounds_view(bs: Seq<Bound>) -> Seq<BoundV>
    decreases bs,
{
    if bs.len() == 0 {
        Seq::empty()
    } else {
        bounds_view(bs.drop_last()).push(bound_view(bs.last()))
    }
}

pub open spec fn bound_view(b: Bound) -> BoundV
    decreases b,
{
    match b {
        Bound::TraitBound(p) => BoundV::TraitBound(path_view(p)),
        Bound::Outlives(l) => BoundV::Outlives(l@),
    }
}

pub open spec fn opt_str_view(o: Option<String>) -> Option<Seq<char>> {
    match o {
        Some(s) => Some(s@),
        None => None,
    }
}

pub open spec fn opt_ty_view(o: Option<TypeExpr>) -> Option<TypeV> {
    match o {
        Some(t) => Some(ty_view(t)),
        None => None,
    }
}

// ---------------------------------------------------------------------------
// View functions: generics, signatures, declarations (not self-recursive).
// ---------------------------------------------------------------------------

pub open spec fn gparam_view(p: GenericParam) -> GenericParamV {
    match p {
        GenericParam::TyParam { ident, bounds } => GenericParamV::TyParam {
            ident: ident@,
            bounds: bounds_view(bounds@),
        },
        GenericParam::LtParam { ident, bounds } => GenericParamV::LtParam {
            ident: ident@,
            bounds: strs_view(bounds@),
        },
        GenericParam::ConstParam { ident } => GenericParamV::ConstParam { ident: ident@ },
    }
}

pub open spec fn gparams_view(ps: Seq<GenericParam>) -> Seq<GenericParamV>
    decreases ps,
{
    if ps.len() == 0 {
        Seq::empty()
    } else {
        gparams_view(ps.drop_last()).push(gparam_view(ps.last()))
    }
}

pub open spec fn strs_view(ss: Seq<String>) -> Seq<Seq<char>>
    decreases ss,
{
    if ss.len() == 0 {
        Seq::empty()
    } else {
        strs_view(ss.drop_last()).push(ss.last()@)
    }
}

pub open spec fn generics_view(g: Generics) -> GenericsV {
    GenericsV {
        bracketed: g.bracketed,
        params: gparams_view(g.params@),
        has_where_clause: g.has_where_clause,
    }
}

pub open spec fn param_view(p: Param) -> ParamV {
    ParamV { name: p.name@, ty: ty_view(p.ty) }
}

pub open spec fn params_view(ps: Seq<Param>) -> Seq<ParamV>
    decreases ps,
{
    if ps.len() == 0 {
        Seq::empty()
    } else {
        params_view(ps.drop_last()).push(param_view(ps.last()))
    }
}

pub open spec fn fndecl_view(d: FnDecl) -> FnDeclV {
    FnDeclV {
        generics: generics_view(d.generics),
        receiver: d.receiver,
        params: params_view(d.params@),
        ret: opt_ty_view(d.ret),
        variadic: d.variadic,
    }
}

pub open spec fn sig_view(s: Sig) -> SigV {
    SigV {
        is_const: s.is_const,
        is_unsafe: s.is_unsafe,
        is_async: s.is_async,
        ident: s.ident@,
        decl: fndecl_view(s.decl),
    }
}

pub open spec fn sigs_view(ss: Seq<Sig>) -> Seq<SigV>
    decreases ss,
{
    if ss.len() == 0 {
        Seq::empty()
    } else {
        sigs_view(ss.drop_last()).push(sig_view(ss.last()))
    }
}

pub open spec fn titem_view(it: TraitItem) -> TraitItemV {
    match it {
        TraitItem::AssocTy { ident, bounds, default_ty } => TraitItemV::AssocTy {
            ident: ident@,
            bounds: bounds_view(bounds@),
            default_ty: opt_ty_view(default_ty),
        },
        TraitItem::Method(s) => TraitItemV::Method(sig_view(s)),
    }
}

pub open spec fn titems_view(its: Seq<TraitItem>) -> Seq<TraitItemV>
    decreases its,
{
    if its.len() == 0 {
        Seq::empty()
    } else {
        titems_view(its.drop_last()).push(titem_view(its.last()))
    }
}

pub open spec fn trait_view(t: TraitDecl) -> TraitDeclV {
    TraitDeclV {
        vis: t.vis,
        is_unsafe: t.is_unsafe,
        ident: t.ident@,
        generics: generics_view(t.generics),
        items: titems_view(t.items@),
    }
}

pub open spec fn traits_view(ts: Seq<TraitDecl>) -> Seq<TraitDeclV>
    decreases ts,
{
    if ts.len() == 0 {
        Seq::empty()
    } else {
        traits_view(ts.drop_last()).push(trait_view(ts.last()))
    }
}

pub open spec fn iitem_view(it: ImplItem) -> ImplItemV {
    match it {
        ImplItem::ConstItem => ImplItemV::ConstItem,
        ImplItem::Method(s) => ImplItemV::Method(sig_view(s)),
        ImplItem::UnsupportedItem => ImplItemV::UnsupportedItem,
    }
}

pub open spec fn iitems_view(its: Seq<ImplItem>) -> Seq<ImplItemV>
    decreases its,
{
    if its.len() == 0 {
        Seq::empty()
    } else {
        iitems_view(its.drop_last()).push(iitem_view(its.last()))
    }
}

pub open spec fn impl_view(b: ImplBlock) -> ImplBlockV {
    ImplBlockV {
        is_unsafe: b.is_unsafe,
        generics: generics_view(b.generics),
        trait_path: match b.trait_path {
            Some(p) => Some(path_view(p)),
            None => None,
        },
        self_ty: ty_view(b.self_ty),
        items: iitems_view(b.items@),
    }
}

pub open spec fn fitem_view(it: ForeignItem) -> ForeignItemV {
    match it {
        ForeignItem::ForeignFn { vis, ident, decl } => ForeignItemV::ForeignFn {
            vis: vis,
            ident: ident@,
            decl: fndecl_view(decl),
        },
        ForeignItem::ForeignStatic(s) => ForeignItemV::ForeignStatic(s@),
        ForeignItem::ForeignTy(s) => ForeignItemV::ForeignTy(s@),
        ForeignItem::ForeignMacro => ForeignItemV::ForeignMacro,
        ForeignItem::ForeignVerbatim => ForeignItemV::ForeignVerbatim,
    }
}

pub open spec fn fitems_view(its: Seq<ForeignItem>) -> Seq<ForeignItemV>
    decreases its,
{
    if its.len() == 0 {
        Seq::empty()
    } else {
        fitems_view(its.drop_last()).push(fitem_view(its.last()))
    }
}

pub open spec fn foreign_view(b: ForeignBlock) -> ForeignBlockV {
    ForeignBlockV { items: fitems_view(b.items@) }
}

pub open spec fn mitem_view(it: ModItem) -> ModItemV {
    match it {
        ModItem::ModFn { vis, sig } => ModItemV::ModFn { vis: vis, sig: sig_view(sig) },
        ModItem::ModStatic(s) => ModItemV::ModStatic(s@),
        ModItem::ModConst(s) => ModItemV::ModConst(s@),
        ModItem::ModTyAlias(s) => ModItemV::ModTyAlias(s@),
        ModItem::ModTraitAlias(s) => ModItemV::ModTraitAlias(s@),
        ModItem::ModIgnored => ModItemV::ModIgnored,
        ModItem::ModNested => ModItemV::ModNested,
        ModItem::ModMacro => ModItemV::ModMacro,
        ModItem::ModVerbatim => ModItemV::ModVerbatim,
    }
}

pub open spec fn mitems_view(its: Seq<ModItem>) -> Seq<ModItemV>
    decreases its,
{
    if its.len() == 0 {
        Seq::empty()
    } else {
        mitems_view(its.drop_last()).push(mitem_view(its.last()))
    }
}

pub open spec fn module_view(m: ModuleDecl) -> ModuleDeclV {
    ModuleDeclV {
        ident: m.ident@,
        content: match m.content {
            Some(its) => Some(mitems_view(its@)),
            None => None,
        },
    }
}

pub open spec fn decl_view(d: Decl) -> DeclV {
    match d {
        Decl::Trait(t) => DeclV::Trait(trait_view(t)),
        Decl::Impl(b) => DeclV::Impl(impl_view(b)),
        Decl::Foreign(b) => DeclV::Foreign(foreign_view(b)),
        Decl::Module(m) => DeclV::Module(module_view(m)),
        Decl::Unsupported => DeclV::Unsupported,
    }
}

pub open spec fn directive_view(d: Directive) -> DirectiveV {
    match d {
        Directive::ModDirective { ident, has_body } => DirectiveV::ModDirective {
            ident: ident@,
            has_body: has_body,
        },
        Directive::TypeDirective { ident, default_ty } => DirectiveV::TypeDirective {
            ident: ident@,
            default_ty: opt_ty_view(default_ty),
        },
        Directive::UnknownDirective => DirectiveV::UnknownDirective,
    }
}

pub open spec fn directives_view(ds: Seq<Directive>) -> Seq<DirectiveV>
    decreases ds,
{
    if ds.len() == 0 {
        Seq::empty()
    } else {
        directives_view(ds.drop_last()).push(directive_view(ds.last()))
    }
}

pub open spec fn subst_view(s: Subst) -> SubstV {
    SubstV { key: s.key@, ty: ty_view(s.ty) }
}

pub open spec fn substs_view(ss: Seq<Subst>) -> Seq<SubstV>
    decreases ss,
{
    if ss.len() == 0 {
        Seq::empty()
    } else {
        substs_view(ss.drop_last()).push(subst_view(ss.last()))
    }
}

pub open spec fn config_view(c: Config) -> ConfigV {
    ConfigV { subs: substs_view(c.subs@), modname: opt_str_view(c.modname) }
}

pub open spec fn mockspec_view(m: MockSpec) -> MockSpecV {
    MockSpecV {
        vis: m.vis,
        name: m.name@,
        generics: generics_view(m.generics),
        methods: sigs_view(m.methods@),
        traits: traits_view(m.traits@),
    }
}

pub open spec fn fnmock_view(f: FnMock) -> FnMockV {
    FnMockV {
        vis: f.vis,
        is_const: f.is_const,
        is_unsafe: f.is_unsafe,
        is_async: f.is_async,
        ident: f.ident@,
        generics: generics_view(f.generics),
        params: params_view(f.params@),
        ret: opt_ty_view(f.ret),
        store_ident: f.store_ident@,
        expect_ident: f.expect_ident@,
        expect_generics: generics_view(f.expect_generics),
        input_tys: tys_view(f.input_tys@),
        arg_names: strs_view(f.arg_names@),
    }
}

pub open spec fn emitted_view(e: Emitted) -> EmittedV {
    match e {
        Emitted::MockFn(f) => EmittedV::MockFn(fnmock_view(f)),
        Emitted::Passthrough(s) => EmittedV::Passthrough(s@),
    }
}

pub open spec fn emitteds_view(es: Seq<Emitted>) -> Seq<EmittedV>
    decreases es,
{
    if es.len() == 0 {
        Seq::empty()
    } else {
        emitteds_view(es.drop_last()).push(emitted_view(es.last()))
    }
}

pub open spec fn mockmodule_view(m: MockModule) -> MockModuleV {
    MockModuleV {
        ident: m.ident@,
        items: emitteds_view(m.items@),
        checkpoint: strs_view(m.checkpoint@),
    }
}

pub open spec fn output_view(o: Output) -> OutputV {
    match o {
        Output::Handoff(m) => OutputV::Handoff(mockspec_view(m)),
        Output::Emission(m) => OutputV::Emission(mockmodule_view(m)),
    }
}

// ---------------------------------------------------------------------------
// View trait impls, so that `x@` reaches the mirror.
// ---------------------------------------------------------------------------

impl View for TypeExpr {
    type V = TypeV;

    open spec fn view(&self) -> TypeV {
        ty_view(*self)
    }
}

impl View for Path {
    type V = PathV;

    open spec fn view(&self) -> PathV {
        path_view(*self)
    }
}

impl View for PathSeg {
    type V = PathSegV;

    open spec fn view(&self) -> PathSegV {
        seg_view(*self)
    }
}

impl View for PathArgs {
    type V = PathArgsV;

    open spec fn view(&self) -> PathArgsV {
        pathargs_view(*self)
    }
}

impl View for GenericArg {
    type V = GenericArgV;

    open spec fn view(&self) -> GenericArgV {
        garg_view(*self)
    }
}

impl View for Bound {
    type V = BoundV;

    open spec fn view(&self) -> BoundV {
        bound_view(*self)
    }
}

impl View for GenericParam {
    type V = GenericParamV;

    open spec fn view(&self) -> GenericParamV {
        gparam_view(*self)
    }
}

impl View for Generics {
    type V = GenericsV;

    open spec fn view(&self) -> GenericsV {
        generics_view(*self)
    }
}

impl View for Param {
    type V = ParamV;

    open spec fn view(&self) -> ParamV {
        param_view(*self)
    }
}

impl View for FnDecl {
    type V = FnDeclV;

    open spec fn view(&self) -> FnDeclV {
        fndecl_view(*self)
    }
}

impl View for Sig {
    type V = SigV;

    open spec fn view(&self) -> SigV {
        sig_view(*self)
    }
}

impl View for TraitItem {
    type V = TraitItemV;

    open spec fn view(&self) -> TraitItemV {
        titem_view(*self)
    }
}

impl View for TraitDecl {
    type V = TraitDeclV;

    open spec fn view(&self) -> TraitDeclV {
        trait_view(*self)
    }
}

impl View for ImplItem {
    type V = ImplItemV;

    open spec fn view(&self) -> ImplItemV {
        iitem_view(*self)
    }
}

impl View for ImplBlock {
    type V = ImplBlockV;

    open spec fn view(&self) -> ImplBlockV {
        impl_view(*self)
    }
}

impl View for ForeignItem {
    type V = ForeignItemV;

    open spec fn view(&self) -> ForeignItemV {
        fitem_view(*self)
    }
}

impl View for ForeignBlock {
    type V = ForeignBlockV;

    open spec fn view(&self) -> ForeignBlockV {
        foreign_view(*self)
    }
}

impl View for ModItem {
    type V = ModItemV;

    open spec fn view(&self) -> ModItemV {
        mitem_view(*self)
    }
}

impl View for ModuleDecl {
    type V = ModuleDeclV;

    open spec fn view(&self) -> ModuleDeclV {
        module_view(*self)
    }
}

impl View for Decl {
    type V = DeclV;

    open spec fn view(&self) -> DeclV {
        decl_view(*self)
    }
}

impl View for Directive {
    type V = DirectiveV;

    open spec fn view(&self) -> DirectiveV {
        directive_view(*self)
    }
}

impl View for Subst {
    type V = SubstV;

    open spec fn view(&self) -> SubstV {
        subst_view(*self)
    }
}

impl View for Config {
    type V = ConfigV;

    open spec fn view(&self) -> ConfigV {
        config_view(*self)
    }
}

impl View for MockSpec {
    type V = MockSpecV;

    open spec fn view(&self) -> MockSpecV {
        mockspec_view(*self)
    }
}

impl View for FnMock {
    type V = FnMockV;

    open spec fn view(&self) -> FnMockV {
        fnmock_view(*self)
    }
}

impl View for Emitted {
    type V = EmittedV;

    open spec fn view(&self) -> EmittedV {
        emitted_view(*self)
    }
}

impl View for MockModule {
    type V = MockModuleV;

    open spec fn view(&self) -> MockModuleV {
        mockmodule_view(*self)
    }
}

impl View for Output {
    type V = OutputV;

    open spec fn view(&self) -> OutputV {
        output_view(*self)
    }
}

// ---------------------------------------------------------------------------
// Indexing lemmas for the sequence views.
// ---------------------------------------------------------------------------

pub broadcast proof fn lemma_tys_view(ts: Seq<TypeExpr>)
    ensures
        (#[trigger] tys_view(ts)).len() == ts.len(),
        forall|i: int| 0 <= i < ts.len() ==> tys_view(ts)[i] == ty_view(ts[i]),
    decreases ts.len(),
{
    if ts.len() > 0 {
        lemma_tys_view(ts.drop_last());
    }
}

pub broadcast proof fn lemma_segs_view(ss: Seq<PathSeg>)
    ensures
        (#[trigger] segs_view(ss)).len() == ss.len(),
        forall|i: int| 0 <= i < ss.len() ==> segs_view(ss)[i] == seg_view(ss[i]),
    decreases ss.len(),
{
    if ss.len() > 0 {
        lemma_segs_view(ss.drop_last());
    }
}

pub broadcast proof fn lemma_gargs_view(gs: Seq<GenericArg>)
    ensures
        (#[trigger] gargs_view(gs)).len() == gs.len(),
        forall|i: int| 0 <= i < gs.len() ==> gargs_view(gs)[i] == garg_view(gs[i]),
    decreases gs.len(),
{
    if gs.len() > 0 {
        lemma_gargs_view(gs.drop_last());
    }
}

pub broadcast proof fn lemma_bounds_view(bs: Seq<Bound>)
    ensures
        (#[trigger] bounds_view(bs)).len() == bs.len(),
        forall|i: int| 0 <= i < bs.len() ==> bounds_view(bs)[i] == bound_view(bs[i]),
    decreases bs.len(),
{
    if bs.len() > 0 {
        lemma_bounds_view(bs.drop_last());
    }
}

pub broadcast proof fn lemma_strs_view(ss: Seq<String>)
    ensures
        (#[trigger] strs_view(ss)).len() == ss.len(),
        forall|i: int| 0 <= i < ss.len() ==> strs_view(ss)[i] == ss[i]@,
    decreases ss.len(),
{
    if ss.len() > 0 {
        lemma_strs_view(ss.drop_last());
    }
}

pub broadcast proof fn lemma_gparams_view(ps: Seq<GenericParam>)
    ensures
        (#[trigger] gparams_view(ps)).len() == ps.len(),
        forall|i: int| 0 <= i < ps.len() ==> gparams_view(ps)[i] == gparam_view(ps[i]),
    decreases ps.len(),
{
    if ps.len() > 0 {
        lemma_gparams_view(ps.drop_last());
    }
}

pub broadcast proof fn lemma_params_view(ps: Seq<Param>)
    ensures
        (#[trigger] params_view(ps)).len() == ps.len(),
        forall|i: int| 0 <= i < ps.len() ==> params_view(ps)[i] == param_view(ps[i]),
    decreases ps.len(),
{
    if ps.len() > 0 {
        lemma_params_view(ps.drop_last());
    }
}

pub broadcast proof fn lemma_sigs_view(ss: Seq<Sig>)
    ensures
        (#[trigger] sigs_view(ss)).len() == ss.len(),
        forall|i: int| 0 <= i < ss.len() ==> sigs_view(ss)[i] == sig_view(ss[i]),
    decreases ss.len(),
{
    if ss.len() > 0 {
        lemma_sigs_view(ss.drop_last());
    }
}

pub broadcast proof fn lemma_titems_view(its: Seq<TraitItem>)
    ensures
        (#[trigger] titems_view(its)).len() == its.len(),
        forall|i: int| 0 <= i < its.len() ==> titems_view(its)[i] == titem_view(its[i]),
    decreases its.len(),
{
    if its.len() > 0 {
        lemma_titems_view(its.drop_last());
    }
}

pub broadcast proof fn lemma_traits_view(ts: Seq<TraitDecl>)
    ensures
        (#[trigger] traits_view(ts)).len() == ts.len(),
        forall|i: int| 0 <= i < ts.len() ==> traits_view(ts)[i] == trait_view(ts[i]),
    decreases ts.len(),
{
    if ts.len() > 0 {
        lemma_traits_view(ts.drop_last());
    }
}

pub broadcast proof fn lemma_iitems_view(its: Seq<ImplItem>)
    ensures
        (#[trigger] iitems_view(its)).len() == its.len(),
        forall|i: int| 0 <= i < its.len() ==> iitems_view(its)[i] == iitem_view(its[i]),
    decreases its.len(),
{
    if its.len() > 0 {
        lemma_iitems_view(its.drop_last());
    }
}

pub broadcast proof fn lemma_fitems_view(its: Seq<ForeignItem>)
    ensures
        (#[trigger] fitems_view(its)).len() == its.len(),
        forall|i: int| 0 <= i < its.len() ==> fitems_view(its)[i] == fitem_view(its[i]),
    decreases its.len(),
{
    if its.len() > 0 {
        lemma_fitems_view(its.drop_last());
    }
}

pub broadcast proof fn lemma_mitems_view(its: Seq<ModItem>)
    ensures
        (#[trigger] mitems_view(its)).len() == its.len(),
        forall|i: int| 0 <= i < its.len() ==> mitems_view(its)[i] == mitem_view(its[i]),
    decreases its.len(),
{
    if its.len() > 0 {
        lemma_mitems_view(its.drop_last());
    }
}

pub broadcast proof fn lemma_directives_view(ds: Seq<Directive>)
    ensures
        (#[trigger] directives_view(ds)).len() == ds.len(),
        forall|i: int| 0 <= i < ds.len() ==> directives_view(ds)[i] == directive_view(ds[i]),
    decreases ds.len(),
{
    if ds.len() > 0 {
        lemma_directives_view(ds.drop_last());
    }
}

pub broadcast proof fn lemma_substs_view(ss: Seq<Subst>)
    ensures
        (#[trigger] substs_view(ss)).len() == ss.len(),
        forall|i: int| 0 <= i < ss.len() ==> substs_view(ss)[i] == subst_view(ss[i]),
    decreases ss.len(),
{
    if ss.len() > 0 {
        lemma_substs_view(ss.drop_last());
    }
}

pub broadcast proof fn lemma_emitteds_view(es: Seq<Emitted>)
    ensures
        (#[trigger] emitteds_view(es)).len() == es.len(),
        forall|i: int| 0 <= i < es.len() ==> emitteds_view(es)[i] == emitted_view(es[i]),
    decreases es.len(),
{
    if es.len() > 0 {
        lemma_emitteds_view(es.drop_last());
    }
}

pub broadcast group group_view_lemmas {
    lemma_tys_view,
    lemma_segs_view,
    lemma_gargs_view,
    lemma_bounds_view,
    lemma_strs_view,
    lemma_gparams_view,
    lemma_params_view,
    lemma_sigs_view,
    lemma_titems_view,
    lemma_traits_view,
    lemma_iitems_view,
    lemma_fitems_view,
    lemma_mitems_view,
    lemma_directives_view,
    lemma_substs_view,
    lemma_emitteds_view,
}

} // verus!
