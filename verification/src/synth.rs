//! The per-kind synthesis strategies and the dispatch entry point: a trait or
//! an impl block becomes a mock specification for the code builder; a foreign
//! block or a module becomes a module of lock-guarded mock functions.

use vstd::prelude::*;
use vstd::string::StringExecFns;
use crate::Diag;
use crate::ast::{
    Config, Decl, Directive, Emitted, FnDecl, FnMock, ForeignBlock, ForeignItem, GenericParam,
    Generics, ImplBlock, ImplItem, MockModule, MockSpec, ModItem, ModuleDecl, Output, Sig,
    TraitDecl, TraitItem, TypeExpr, Vis,
};
use crate::attrs::{cfg_map, parse_directives_spec};
use crate::dup::{dup_gparam_vec, dup_opt_ty, dup_param_vec};
use crate::generics::{filter_generics, filter_generics_spec, find_ident_from_path, find_ident_spec};
use crate::model::{
    directives_view, emitteds_view, fitems_view, gparams_view, group_view_lemmas, iitems_view,
    mitems_view, params_view, sigs_view, strs_view, titems_view, trait_view, tys_view, ConfigV,
    DeclV, EmittedV, FnDeclV, FnMockV, ForeignBlockV, ForeignItemV, GenericParamV, GenericsV,
    ImplItemV, MockModuleV, MockSpecV, ModItemV, ModuleDeclV, OutputV, SigV, TraitDeclV,
    TraitItemV, TypeV,
};
use crate::subst::subst_trait_spec;

verus! {

broadcast use group_view_lemmas;

// ---------------------------------------------------------------------------
// The meaning of function-mock synthesis.
// ---------------------------------------------------------------------------

/// The parameter types of a signature, in order: the expectation store's
/// element tuple.
pub open spec fn params_tys(ps: Seq<crate::model::ParamV>) -> Seq<TypeV> {
    Seq::new(ps.len(), |i: int| ps[i].ty)
}

/// The parameter names of a signature, in order: the argument tuple the mock
/// body dispatches to the store.
pub open spec fn params_names(ps: Seq<crate::model::ParamV>) -> Seq<Seq<char>> {
    Seq::new(ps.len(), |i: int| ps[i].name)
}

/// What mocking one function yields: its store named `<ident>_expectation`,
/// the mock function with the same signature, and an `expect_<ident>`
/// accessor whose generics gain the guard lifetime. A variadic signature
/// fails immediately.
pub open spec fn mock_function_spec(
    vis: Vis,
    is_const: bool,
    is_unsafe: bool,
    is_async: bool,
    ident: Seq<char>,
    decl: FnDeclV,
) -> Result<FnMockV, Diag> {
    if decl.variadic {
        Err(Diag::VariadicFunction)
    } else {
        Ok(
            FnMockV {
                vis: vis,
                is_const: is_const,
                is_unsafe: is_unsafe,
                is_async: is_async,
                ident: ident,
                generics: decl.generics,
                params: decl.params,
                ret: decl.ret,
                store_ident: ident + "_expectation"@,
                expect_ident: "expect_"@ + ident,
                expect_generics: GenericsV {
                    bracketed: true,
                    params: decl.generics.params.push(
                        GenericParamV::LtParam { ident: "guard"@, bounds: Seq::empty() },
                    ),
                    has_where_clause: decl.generics.has_where_clause,
                },
                input_tys: params_tys(decl.params),
                arg_names: params_names(decl.params),
            },
        )
    }
}

/// A foreign function is mocked as implicitly unsafe, never const or async.
pub open spec fn mock_foreign_function_spec(vis: Vis, ident: Seq<char>, decl: FnDeclV) -> Result<
    FnMockV,
    Diag,
> {
    mock_function_spec(vis, false, true, false, ident, decl)
}

/// A module function is mocked with its qualifiers taken verbatim.
pub open spec fn mock_native_function_spec(vis: Vis, sig: SigV) -> Result<FnMockV, Diag> {
    mock_function_spec(vis, sig.is_const, sig.is_unsafe, sig.is_async, sig.ident, sig.decl)
}

// ---------------------------------------------------------------------------
// The meaning of the foreign-block strategy.
// ---------------------------------------------------------------------------

/// Walks a foreign block's items: functions become mocks (and enter the
/// checkpoint list), statics and types are copied through, macro and
/// unrecognized items fail.
pub open spec fn foreign_items_spec(its: Seq<ForeignItemV>) -> Result<
    (Seq<EmittedV>, Seq<Seq<char>>),
    Diag,
>
    decreases its,
{
    if its.len() == 0 {
        Ok((Seq::empty(), Seq::empty()))
    } else {
        match foreign_items_spec(its.drop_last()) {
            Err(d) => Err(d),
            Ok(front) => match its.last() {
                ForeignItemV::ForeignFn { vis, ident, decl } => match mock_foreign_function_spec(
                    vis,
                    ident,
                    decl,
                ) {
                    Err(d) => Err(d),
                    Ok(fm) => Ok(
                        (front.0.push(EmittedV::MockFn(fm)), front.1.push(fm.store_ident)),
                    ),
                },
                ForeignItemV::ForeignStatic(s) => Ok((front.0.push(EmittedV::Passthrough(s)), front.1)),
                ForeignItemV::ForeignTy(s) => Ok((front.0.push(EmittedV::Passthrough(s)), front.1)),
                ForeignItemV::ForeignMacro => Err(Diag::MacroItem),
                ForeignItemV::ForeignVerbatim => Err(Diag::UnrecognizedItem),
            },
        }
    }
}

/// What the foreign-block strategy yields: a module named by the
/// configuration's rename directive, holding the items and their checkpoint
/// list; without a rename directive it fails.
pub open spec fn mock_foreign_spec(c: ConfigV, b: ForeignBlockV) -> Result<MockModuleV, Diag> {
    match c.modname {
        None => Err(Diag::MissingModuleName),
        Some(name) => match foreign_items_spec(b.items) {
            Err(d) => Err(d),
            Ok(r) => Ok(MockModuleV { ident: name, items: r.0, checkpoint: r.1 }),
        },
    }
}

// ---------------------------------------------------------------------------
// The meaning of the module strategy.
// ---------------------------------------------------------------------------

/// Walks a module's items: functions become mocks (and enter the checkpoint
/// list); statics, consts, type aliases, and trait aliases are copied
/// through; imports and impls are ignored; nested scopes, macro items, and
/// unrecognized items fail.
pub open spec fn mod_items_spec(its: Seq<ModItemV>) -> Result<
    (Seq<EmittedV>, Seq<Seq<char>>),
    Diag,
>
    decreases its,
{
    if its.len() == 0 {
        Ok((Seq::empty(), Seq::empty()))
    } else {
        match mod_items_spec(its.drop_last()) {
            Err(d) => Err(d),
            Ok(front) => match its.last() {
                ModItemV::ModFn { vis, sig } => match mock_native_function_spec(vis, sig) {
                    Err(d) => Err(d),
                    Ok(fm) => Ok(
                        (front.0.push(EmittedV::MockFn(fm)), front.1.push(fm.store_ident)),
                    ),
                },
                ModItemV::ModStatic(s) => Ok((front.0.push(EmittedV::Passthrough(s)), front.1)),
                ModItemV::ModConst(s) => Ok((front.0.push(EmittedV::Passthrough(s)), front.1)),
                ModItemV::ModTyAlias(s) => Ok((front.0.push(EmittedV::Passthrough(s)), front.1)),
                ModItemV::ModTraitAlias(s) => Ok(
                    (front.0.push(EmittedV::Passthrough(s)), front.1),
                ),
                ModItemV::ModIgnored => Ok(front),
                ModItemV::ModNested => Err(Diag::NestedItem),
                ModItemV::ModMacro => Err(Diag::MacroItem),
                ModItemV::ModVerbatim => Err(Diag::UnrecognizedItem),
            },
        }
    }
}

/// What the module strategy yields: a module named `mock_<ident>` holding the
/// mocked items and their checkpoint list. A bare `mod name;` yields the
/// empty module.
pub open spec fn mock_module_spec(m: ModuleDeclV) -> Result<MockModuleV, Diag> {
    match (match m.content {
        Some(its) => mod_items_spec(its),
        None => Ok((Seq::empty(), Seq::empty())),
    }) {
        Err(d) => Err(d),
        Ok(r) => Ok(MockModuleV { ident: "mock_"@ + m.ident, items: r.0, checkpoint: r.1 }),
    }
}

// ---------------------------------------------------------------------------
// The meaning of the trait and impl strategies.
// ---------------------------------------------------------------------------

/// What the trait strategy yields: the substituted trait as the single trait
/// to implement, under the trait's own name, visibility, and (original)
/// generics, with no direct methods.
pub open spec fn mock_trait_spec(m: Map<Seq<char>, TypeV>, t: TraitDeclV) -> Result<
    MockSpecV,
    Diag,
> {
    match subst_trait_spec(m, t) {
        Err(d) => Err(d),
        Ok(t2) => Ok(
            MockSpecV {
                vis: t.vis,
                name: t.ident,
                generics: t.generics,
                methods: Seq::empty(),
                traits: seq![t2],
            },
        ),
    }
}

/// Collects an impl block's method signatures: const items are dropped, any
/// other item kind fails.
pub open spec fn impl_methods_spec(its: Seq<ImplItemV>) -> Result<Seq<SigV>, Diag>
    decreases its,
{
    if its.len() == 0 {
        Ok(Seq::empty())
    } else {
        match impl_methods_spec(its.drop_last()) {
            Err(d) => Err(d),
            Ok(front) => match its.last() {
                ImplItemV::ConstItem => Ok(front),
                ImplItemV::Method(s) => Ok(front.push(s)),
                ImplItemV::UnsupportedItem => Err(Diag::UnsupportedImplItem),
            },
        }
    }
}

/// Methods routed as a synthetic trait's items.
pub open spec fn sigs_as_titems(ms: Seq<SigV>) -> Seq<TraitItemV> {
    Seq::new(ms.len(), |i: int| TraitItemV::Method(ms[i]))
}

/// What the impl-block strategy yields. The self type must be a plain named
/// path. With a trait reference, the methods are routed through a synthetic
/// trait whose generics are the impl's generics filtered against the trait
/// reference's arguments; a bare inherent impl routes them as direct methods.
/// The mock itself is always fully public.
pub open spec fn mock_impl_spec(b: crate::model::ImplBlockV) -> Result<MockSpecV, Diag> {
    match (match b.self_ty {
        TypeV::NamedPath(q, p) => find_ident_spec(p),
        _ => Err(Diag::NonPathSelfType),
    }) {
        Err(d) => Err(d),
        Ok(na) => match impl_methods_spec(b.items) {
            Err(d) => Err(d),
            Ok(methods) => match b.trait_path {
                Some(tp) => match find_ident_spec(tp) {
                    Err(d) => Err(d),
                    Ok(ta) => match filter_generics_spec(b.generics, ta.1) {
                        Err(d) => Err(d),
                        Ok(fg) => Ok(
                            MockSpecV {
                                vis: Vis::Public,
                                name: na.0,
                                generics: b.generics,
                                methods: Seq::empty(),
                                traits: seq![
                                    TraitDeclV {
                                        vis: Vis::Public,
                                        is_unsafe: b.is_unsafe,
                                        ident: ta.0,
                                        generics: fg,
                                        items: sigs_as_titems(methods),
                                    },
                                ],
                            },
                        ),
                    },
                },
                None => Ok(
                    MockSpecV {
                        vis: Vis::Public,
                        name: na.0,
                        generics: b.generics,
                        methods: methods,
                        traits: Seq::empty(),
                    },
                ),
            },
        },
    }
}

// ---------------------------------------------------------------------------
// The meaning of the dispatch entry point.
// ---------------------------------------------------------------------------

/// What one invocation yields: the parsed configuration routed to the
/// strategy for the declaration's kind, or the single diagnostic of the
/// first failure.
pub open spec fn do_automock_spec(ds: Seq<crate::model::DirectiveV>, d: DeclV) -> Result<
    OutputV,
    Diag,
> {
    match parse_directives_spec(ds) {
        Err(e) => Err(e),
        Ok(c) => match d {
            DeclV::Impl(b) => match mock_impl_spec(b) {
                Ok(ms) => Ok(OutputV::Handoff(ms)),
                Err(e) => Err(e),
            },
            DeclV::Foreign(b) => match mock_foreign_spec(c, b) {
                Ok(mm) => Ok(OutputV::Emission(mm)),
                Err(e) => Err(e),
            },
            DeclV::Module(m) => match mock_module_spec(m) {
                Ok(mm) => Ok(OutputV::Emission(mm)),
                Err(e) => Err(e),
            },
            DeclV::Trait(t) => match mock_trait_spec(cfg_map(c.subs), t) {
                Ok(ms) => Ok(OutputV::Handoff(ms)),
                Err(e) => Err(e),
            },
            DeclV::Unsupported => Err(Diag::UnsupportedDeclaration),
        },
    }
}

// ---------------------------------------------------------------------------
// Prefix lemmas for the item walks.
// ---------------------------------------------------------------------------

pub proof fn lemma_foreign_items_prefix_err(its: Seq<ForeignItemV>, i: int)
    requires
        0 <= i <= its.len(),
        foreign_items_spec(its.take(i)) is Err,
    ensures
        foreign_items_spec(its) == foreign_items_spec(its.take(i)),
    decreases its.len(),
{
    if i == its.len() {
        assert(its.take(i) =~= its);
    } else {
        assert(its.drop_last().take(i) =~= its.take(i));
        lemma_foreign_items_prefix_err(its.drop_last(), i);
    }
}

pub proof fn lemma_mod_items_prefix_err(its: Seq<ModItemV>, i: int)
    requires
        0 <= i <= its.len(),
        mod_items_spec(its.take(i)) is Err,
    ensures
        mod_items_spec(its) == mod_items_spec(its.take(i)),
    decreases its.len(),
{
    if i == its.len() {
        assert(its.take(i) =~= its);
    } else {
        assert(its.drop_last().take(i) =~= its.take(i));
        lemma_mod_items_prefix_err(its.drop_last(), i);
    }
}

pub proof fn lemma_impl_methods_prefix_err(its: Seq<ImplItemV>, i: int)
    requires
        0 <= i <= its.len(),
        impl_methods_spec(its.take(i)) is Err,
    ensures
        impl_methods_spec(its) == impl_methods_spec(its.take(i)),
    decreases its.len(),
{
    if i == its.len() {
        assert(its.take(i) =~= its);
    } else {
        assert(its.drop_last().take(i) =~= its.take(i));
        lemma_impl_methods_prefix_err(its.drop_last(), i);
    }
}

// ---------------------------------------------------------------------------
// The executable strategies.
// ---------------------------------------------------------------------------

/// Synthesizes one function mock: the lock-guarded store, the mock function,
/// and the expectation accessor with the guard lifetime.
pub fn mock_function(
    vis: Vis,
    is_const: bool,
    is_unsafe: bool,
    is_async: bool,
    ident: &String,
    decl: &FnDecl,
) -> (r: Result<FnMock, Diag>)
    ensures
        (match r {
            Ok(f) => mock_function_spec(vis, is_const, is_unsafe, is_async, ident@, decl@)
                == Ok::<FnMockV, Diag>(f@),
            Err(e) => mock_function_spec(vis, is_const, is_unsafe, is_async, ident@, decl@)
                == Err::<FnMockV, Diag>(e),
        }),
{
    if decl.variadic {
        return Err(Diag::VariadicFunction);
    }
    let ghost psv = params_view(decl.params@);
    let mut input_tys: Vec<TypeExpr> = Vec::new();
    let mut arg_names: Vec<String> = Vec::new();
    let mut i: usize = 0;
    #[verifier::loop_isolation(false)]
    while i < decl.params.len()
        invariant
            i <= decl.params.len(),
            tys_view(input_tys@) =~= params_tys(psv).take(i as int),
            strs_view(arg_names@) =~= params_names(psv).take(i as int),
        decreases decl.params.len() - i,
    {
        let p = &decl.params[i];
        let t2 = p.ty.dup();
        let n2 = p.name.clone();
        proof {
            assert(tys_view(input_tys@.push(t2)) =~= tys_view(input_tys@).push(t2@));
            assert(strs_view(arg_names@.push(n2)) =~= strs_view(arg_names@).push(n2@));
            assert(tys_view(input_tys@).push(t2@) =~= params_tys(psv).take(i + 1));
            assert(strs_view(arg_names@).push(n2@) =~= params_names(psv).take(i + 1));
        }
        input_tys.push(t2);
        arg_names.push(n2);
        i += 1;
    }
    proof {
        assert(params_tys(psv).take(decl.params.len() as int) =~= params_tys(psv));
        assert(params_names(psv).take(decl.params.len() as int) =~= params_names(psv));
    }
    let store_ident = ident.clone().concat("_expectation");
    let expect_ident = String::from_str("expect_").concat(ident.as_str());
    let mut eg_params = dup_gparam_vec(&decl.generics.params);
    let guard_param = GenericParam::LtParam { ident: String::from_str("guard"), bounds: Vec::new() };
    proof {
        assert(strs_view(Seq::<String>::empty()) =~= Seq::<Seq<char>>::empty());
        assert(gparams_view(eg_params@.push(guard_param)) =~= gparams_view(eg_params@).push(
            crate::model::gparam_view(guard_param),
        ));
    }
    eg_params.push(guard_param);
    Ok(
        FnMock {
            vis: vis,
            is_const: is_const,
            is_unsafe: is_unsafe,
            is_async: is_async,
            ident: ident.clone(),
            generics: decl.generics.dup(),
            params: dup_param_vec(&decl.params),
            ret: dup_opt_ty(&decl.ret),
            store_ident: store_ident,
            expect_ident: expect_ident,
            expect_generics: Generics {
                bracketed: true,
                params: eg_params,
                has_where_clause: decl.generics.has_where_clause,
            },
            input_tys: input_tys,
            arg_names: arg_names,
        },
    )
}

/// Mocks a foreign function: implicitly unsafe, like the function it stands for.
pub fn mock_foreign_function(vis: Vis, ident: &String, decl: &FnDecl) -> (r: Result<FnMock, Diag>)
    ensures
        (match r {
            Ok(f) => mock_foreign_function_spec(vis, ident@, decl@) == Ok::<FnMockV, Diag>(f@),
            Err(e) => mock_foreign_function_spec(vis, ident@, decl@) == Err::<FnMockV, Diag>(e),
        }),
{
    mock_function(vis, false, true, false, ident, decl)
}

/// Mocks a module function with its qualifiers taken verbatim.
pub fn mock_native_function(vis: Vis, sig: &Sig) -> (r: Result<FnMock, Diag>)
    ensures
        (match r {
            Ok(f) => mock_native_function_spec(vis, sig@) == Ok::<FnMockV, Diag>(f@),
            Err(e) => mock_native_function_spec(vis, sig@) == Err::<FnMockV, Diag>(e),
        }),
{
    mock_function(vis, sig.is_const, sig.is_unsafe, sig.is_async, &sig.ident, &sig.decl)
}

/// The foreign-block strategy: a module named by the configuration's rename
/// directive, with one lock-guarded mock per function, statics and types
/// copied through, and a checkpoint list in declaration order.
pub fn mock_foreign(cfg: &Config, block: &ForeignBlock) -> (r: Result<MockModule, Diag>)
    ensures
        (match r {
            Ok(mm) => mock_foreign_spec(cfg@, block@) == Ok::<MockModuleV, Diag>(mm@),
            Err(e) => mock_foreign_spec(cfg@, block@) == Err::<MockModuleV, Diag>(e),
        }),
{
    let modname = match &cfg.modname {
        Some(n) => n.clone(),
        None => {
            return Err(Diag::MissingModuleName);
        },
    };
    let ghost itsv = fitems_view(block.items@);
    let mut items: Vec<Emitted> = Vec::new();
    let mut cps: Vec<String> = Vec::new();
    let mut i: usize = 0;
    #[verifier::loop_isolation(false)]
    while i < block.items.len()
        invariant
            i <= block.items.len(),
            foreign_items_spec(itsv.take(i as int)) == Ok::<(Seq<EmittedV>, Seq<Seq<char>>), Diag>(
                (emitteds_view(items@), strs_view(cps@)),
            ),
        decreases block.items.len() - i,
    {
        proof {
            assert(itsv.take(i + 1).drop_last() =~= itsv.take(i as int));
            assert(itsv.take(i + 1).last() == itsv[i as int]);
        }
        match &block.items[i] {
            ForeignItem::ForeignFn { vis, ident, decl } => {
                match mock_foreign_function(*vis, ident, decl) {
                    Ok(fm) => {
                        let cp = fm.store_ident.clone();
                        let e = Emitted::MockFn(fm);
                        proof {
                            assert(emitteds_view(items@.push(e)) =~= emitteds_view(items@).push(
                                crate::model::emitted_view(e),
                            ));
                            assert(strs_view(cps@.push(cp)) =~= strs_view(cps@).push(cp@));
                        }
                        items.push(e);
                        cps.push(cp);
                    },
                    Err(d) => {
                        proof {
                            lemma_foreign_items_prefix_err(itsv, i + 1);
                        }
                        return Err(d);
                    },
                }
            },
            ForeignItem::ForeignStatic(s) => {
                let e = Emitted::Passthrough(s.clone());
                proof {
                    assert(emitteds_view(items@.push(e)) =~= emitteds_view(items@).push(
                        crate::model::emitted_view(e),
                    ));
                }
                items.push(e);
            },
            ForeignItem::ForeignTy(s) => {
                let e = Emitted::Passthrough(s.clone());
                proof {
                    assert(emitteds_view(items@.push(e)) =~= emitteds_view(items@).push(
                        crate::model::emitted_view(e),
                    ));
                }
                items.push(e);
            },
            ForeignItem::ForeignMacro => {
                proof {
                    lemma_foreign_items_prefix_err(itsv, i + 1);
                }
                return Err(Diag::MacroItem);
            },
            ForeignItem::ForeignVerbatim => {
                proof {
                    lemma_foreign_items_prefix_err(itsv, i + 1);
                }
                return Err(Diag::UnrecognizedItem);
            },
        }
        i += 1;
    }
    proof {
        assert(itsv.take(block.items.len() as int) =~= itsv);
    }
    Ok(MockModule { ident: modname, items: items, checkpoint: cps })
}

/// The module strategy: a module named `mock_<ident>`, with one lock-guarded
/// mock per function (qualifiers taken verbatim), statics, consts, type
/// aliases, and trait aliases copied through, imports and impls ignored, and
/// a checkpoint list in declaration order.
pub fn mock_module(m: &ModuleDecl) -> (r: Result<MockModule, Diag>)
    ensures
        (match r {
            Ok(mm) => mock_module_spec(m@) == Ok::<MockModuleV, Diag>(mm@),
            Err(e) => mock_module_spec(m@) == Err::<MockModuleV, Diag>(e),
        }),
{
    let modname = String::from_str("mock_").concat(m.ident.as_str());
    let mut items: Vec<Emitted> = Vec::new();
    let mut cps: Vec<String> = Vec::new();
    match &m.content {
        None => {
            proof {
                assert(emitteds_view(items@) =~= Seq::<EmittedV>::empty());
                assert(strs_view(cps@) =~= Seq::<Seq<char>>::empty());
            }
            Ok(MockModule { ident: modname, items: items, checkpoint: cps })
        },
        Some(content) => {
            let ghost itsv = mitems_view(content@);
            let mut i: usize = 0;
            #[verifier::loop_isolation(false)]
            while i < content.len()
                invariant
                    i <= content.len(),
                    mod_items_spec(itsv.take(i as int)) == Ok::<
                        (Seq<EmittedV>, Seq<Seq<char>>),
                        Diag,
                    >((emitteds_view(items@), strs_view(cps@))),
                decreases content.len() - i,
            {
                proof {
                    assert(itsv.take(i + 1).drop_last() =~= itsv.take(i as int));
                    assert(itsv.take(i + 1).last() == itsv[i as int]);
                }
                match &content[i] {
                    ModItem::ModFn { vis, sig } => {
                        match mock_native_function(*vis, sig) {
                            Ok(fm) => {
                                let cp = fm.store_ident.clone();
                                let e = Emitted::MockFn(fm);
                                proof {
                                    assert(emitteds_view(items@.push(e)) =~= emitteds_view(
                                        items@,
                                    ).push(crate::model::emitted_view(e)));
                                    assert(strs_view(cps@.push(cp)) =~= strs_view(cps@).push(cp@));
                                }
                                items.push(e);
                                cps.push(cp);
                            },
                            Err(d) => {
                                proof {
                                    lemma_mod_items_prefix_err(itsv, i + 1);
                                }
                                return Err(d);
                            },
                        }
                    },
                    ModItem::ModStatic(s) => {
                        let e = Emitted::Passthrough(s.clone());
                        proof {
                            assert(emitteds_view(items@.push(e)) =~= emitteds_view(items@).push(
                                crate::model::emitted_view(e),
                            ));
                        }
                        items.push(e);
                    },
                    ModItem::ModConst(s) => {
                        let e = Emitted::Passthrough(s.clone());
                        proof {
                            assert(emitteds_view(items@.push(e)) =~= emitteds_view(items@).push(
                                crate::model::emitted_view(e),
                            ));
                        }
                        items.push(e);
                    },
                    ModItem::ModTyAlias(s) => {
                        let e = Emitted::Passthrough(s.clone());
                        proof {
                            assert(emitteds_view(items@.push(e)) =~= emitteds_view(items@).push(
                                crate::model::emitted_view(e),
                            ));
                        }
                        items.push(e);
                    },
                    ModItem::ModTraitAlias(s) => {
                        let e = Emitted::Passthrough(s.clone());
                        proof {
                            assert(emitteds_view(items@.push(e)) =~= emitteds_view(items@).push(
                                crate::model::emitted_view(e),
                            ));
                        }
                        items.push(e);
                    },
                    ModItem::ModIgnored => {},
                    ModItem::ModNested => {
                        proof {
                            lemma_mod_items_prefix_err(itsv, i + 1);
                        }
                        return Err(Diag::NestedItem);
                    },
                    ModItem::ModMacro => {
                        proof {
                            lemma_mod_items_prefix_err(itsv, i + 1);
                        }
                        return Err(Diag::MacroItem);
                    },
                    ModItem::ModVerbatim => {
                        proof {
                            lemma_mod_items_prefix_err(itsv, i + 1);
                        }
                        return Err(Diag::UnrecognizedItem);
                    },
                }
                i += 1;
            }
            proof {
                assert(itsv.take(content.len() as int) =~= itsv);
            }
            Ok(MockModule { ident: modname, items: items, checkpoint: cps })
        },
    }
}

/// The trait strategy: substitute the configured associated types through the
/// trait, and hand the builder a specification with no direct methods and the
/// synthesized trait as the single trait to implement.
pub fn mock_trait(cfg: &Config, item: &TraitDecl) -> (r: Result<MockSpec, Diag>)
    ensures
        (match r {
            Ok(ms) => mock_trait_spec(cfg.sub_map(), item@) == Ok::<MockSpecV, Diag>(ms@),
            Err(e) => mock_trait_spec(cfg.sub_map(), item@) == Err::<MockSpecV, Diag>(e),
        }),
{
    let generics = item.generics.dup();
    let trait2 = match cfg.substitute_types(item) {
        Ok(t) => t,
        Err(d) => {
            return Err(d);
        },
    };
    let mut traits: Vec<TraitDecl> = Vec::new();
    proof {
        assert(crate::model::traits_view(traits@.push(trait2)) =~= crate::model::traits_view(
            traits@,
        ).push(trait_view(trait2)));
        assert(crate::model::traits_view(Seq::<TraitDecl>::empty()) =~= Seq::<
            TraitDeclV,
        >::empty());
        assert(sigs_view(Seq::<Sig>::empty()) =~= Seq::<SigV>::empty());
    }
    traits.push(trait2);
    Ok(
        MockSpec {
            vis: item.vis,
            name: item.ident.clone(),
            generics: generics,
            methods: Vec::new(),
            traits: traits,
        },
    )
}

/// The impl-block strategy: resolve the self type to a plain identifier,
/// collect the method signatures, and route them either through a synthetic
/// trait (when the impl implements one) or as direct methods.
pub fn mock_impl(b: &ImplBlock) -> (r: Result<MockSpec, Diag>)
    ensures
        (match r {
            Ok(ms) => mock_impl_spec(b@) == Ok::<MockSpecV, Diag>(ms@),
            Err(e) => mock_impl_spec(b@) == Err::<MockSpecV, Diag>(e),
        }),
{
    let name = match &b.self_ty {
        TypeExpr::NamedPath(q, p) => match find_ident_from_path(p) {
            Ok(ia) => ia.0,
            Err(d) => {
                return Err(d);
            },
        },
        _ => {
            return Err(Diag::NonPathSelfType);
        },
    };
    let ghost itsv = iitems_view(b.items@);
    let mut methods: Vec<Sig> = Vec::new();
    let mut i: usize = 0;
    #[verifier::loop_isolation(false)]
    while i < b.items.len()
        invariant
            i <= b.items.len(),
            impl_methods_spec(itsv.take(i as int)) == Ok::<Seq<SigV>, Diag>(sigs_view(methods@)),
        decreases b.items.len() - i,
    {
        proof {
            assert(itsv.take(i + 1).drop_last() =~= itsv.take(i as int));
            assert(itsv.take(i + 1).last() == itsv[i as int]);
        }
        match &b.items[i] {
            ImplItem::ConstItem => {},
            ImplItem::Method(s) => {
                let s2 = s.dup();
                proof {
                    assert(sigs_view(methods@.push(s2)) =~= sigs_view(methods@).push(s2@));
                }
                methods.push(s2);
            },
            ImplItem::UnsupportedItem => {
                proof {
                    lemma_impl_methods_prefix_err(itsv, i + 1);
                }
                return Err(Diag::UnsupportedImplItem);
            },
        }
        i += 1;
    }
    proof {
        assert(itsv.take(b.items.len() as int) =~= itsv);
    }
    match &b.trait_path {
        Some(tp) => {
            let ta = match find_ident_from_path(tp) {
                Ok(ia) => ia,
                Err(d) => {
                    return Err(d);
                },
            };
            let fg = match filter_generics(&b.generics, &ta.1) {
                Ok(g) => g,
                Err(d) => {
                    return Err(d);
                },
            };
            let ghost msv = sigs_view(methods@);
            let mut titems: Vec<TraitItem> = Vec::new();
            let mut j: usize = 0;
            #[verifier::loop_isolation(false)]
            while j < methods.len()
                invariant
                    j <= methods.len(),
                    titems_view(titems@) =~= sigs_as_titems(msv).take(j as int),
                decreases methods.len() - j,
            {
                let it = TraitItem::Method(methods[j].dup());
                proof {
                    assert(titems_view(titems@.push(it)) =~= titems_view(titems@).push(
                        crate::model::titem_view(it),
                    ));
                    assert(titems_view(titems@).push(crate::model::titem_view(it))
                        =~= sigs_as_titems(msv).take(j + 1));
                }
                titems.push(it);
                j += 1;
            }
            proof {
                assert(sigs_as_titems(msv).take(methods.len() as int) =~= sigs_as_titems(msv));
            }
            let synthetic = TraitDecl {
                vis: Vis::Public,
                is_unsafe: b.is_unsafe,
                ident: ta.0,
                generics: fg,
                items: titems,
            };
            let mut traits: Vec<TraitDecl> = Vec::new();
            proof {
                assert(crate::model::traits_view(traits@.push(synthetic)) =~= crate::model::traits_view(
                    traits@,
                ).push(trait_view(synthetic)));
                assert(crate::model::traits_view(Seq::<TraitDecl>::empty()) =~= Seq::<
                    TraitDeclV,
                >::empty());
                assert(sigs_view(Seq::<Sig>::empty()) =~= Seq::<SigV>::empty());
            }
            traits.push(synthetic);
            Ok(
                MockSpec {
                    vis: Vis::Public,
                    name: name,
                    generics: b.generics.dup(),
                    methods: Vec::new(),
                    traits: traits,
                },
            )
        },
        None => {
            proof {
                assert(crate::model::traits_view(Seq::<TraitDecl>::empty()) =~= Seq::<
                    TraitDeclV,
                >::empty());
            }
            Ok(
                MockSpec {
                    vis: Vis::Public,
                    name: name,
                    generics: b.generics.dup(),
                    methods: methods,
                    traits: Vec::new(),
                },
            )
        },
    }
}

/// The dispatch entry point: parse the configuration, classify the
/// declaration, route to its strategy, and surface the first failure as the
/// single diagnostic.
pub fn do_automock(directives: &Vec<Directive>, decl: &Decl) -> (r: Result<Output, Diag>)
    ensures
        (match r {
            Ok(o) => do_automock_spec(directives_view(directives@), decl@) == Ok::<
                OutputV,
                Diag,
            >(o@),
            Err(e) => do_automock_spec(directives_view(directives@), decl@) == Err::<
                OutputV,
                Diag,
            >(e),
        }),
{
    let cfg = match Config::from_directives(directives) {
        Ok(c) => c,
        Err(e) => {
            return Err(e);
        },
    };
    match decl {
        Decl::Impl(b) => match mock_impl(b) {
            Ok(ms) => Ok(Output::Handoff(ms)),
            Err(e) => Err(e),
        },
        Decl::Foreign(b) => match mock_foreign(&cfg, b) {
            Ok(mm) => Ok(Output::Emission(mm)),
            Err(e) => Err(e),
        },
        Decl::Module(m) => match mock_module(m) {
            Ok(mm) => Ok(Output::Emission(mm)),
            Err(e) => Err(e),
        },
        Decl::Trait(t) => match mock_trait(&cfg, t) {
            Ok(ms) => Ok(Output::Handoff(ms)),
            Err(e) => Err(e),
        },
        Decl::Unsupported => Err(Diag::UnsupportedDeclaration),
    }
}

} // verus!
