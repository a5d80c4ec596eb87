//! The synthesis scenarios: one per declaration shape the engine accepts,
//! checked against the structured output of the dispatch entry point.

use mocksynth::ast::{
    Bound, Decl, Directive, Emitted, FnDecl, ForeignBlock, ForeignItem, GenericArg, GenericParam,
    Generics, ImplBlock, ImplItem, ModItem, ModuleDecl, Output, Param, Path, PathArgs, PathSeg,
    Receiver, Sig, TraitDecl, TraitItem, TypeExpr, Vis,
};
use mocksynth::synth::do_automock;

fn s(x: &str) -> String {
    x.to_string()
}

fn seg(name: &str) -> PathSeg {
    PathSeg { ident: s(name), args: PathArgs::Absent }
}

fn simple_path(name: &str) -> Path {
    Path { leading_colon: false, segs: vec![seg(name)] }
}

fn simple_ty(name: &str) -> TypeExpr {
    TypeExpr::NamedPath(false, simple_path(name))
}

fn self_assoc_ty(assoc: &str) -> TypeExpr {
    TypeExpr::NamedPath(
        false,
        Path { leading_colon: false, segs: vec![seg("Self"), seg(assoc)] },
    )
}

fn no_generics() -> Generics {
    Generics { bracketed: false, params: vec![], has_where_clause: false }
}

fn generics(params: Vec<GenericParam>) -> Generics {
    Generics { bracketed: true, params, has_where_clause: false }
}

fn ty_param(name: &str, bounds: Vec<Bound>) -> GenericParam {
    GenericParam::TyParam { ident: s(name), bounds }
}

fn lt_param(name: &str) -> GenericParam {
    GenericParam::LtParam { ident: s(name), bounds: vec![] }
}

fn fn_decl(receiver: Receiver, params: Vec<Param>, ret: Option<TypeExpr>) -> FnDecl {
    FnDecl { generics: no_generics(), receiver, params, ret, variadic: false }
}

fn method(name: &str, receiver: Receiver, params: Vec<Param>, ret: Option<TypeExpr>) -> Sig {
    Sig {
        is_const: false,
        is_unsafe: false,
        is_async: false,
        ident: s(name),
        decl: fn_decl(receiver, params, ret),
    }
}

fn param(name: &str, ty: TypeExpr) -> Param {
    Param { name: s(name), ty }
}

fn trait_decl(vis: Vis, name: &str, generics: Generics, items: Vec<TraitItem>) -> TraitDecl {
    TraitDecl { vis, is_unsafe: false, ident: s(name), generics, items }
}

#[test]
fn associated_types() {
    let directives = vec![Directive::TypeDirective {
        ident: s("T"),
        default_ty: Some(simple_ty("u32")),
    }];
    let input = trait_decl(
        Vis::Inherited,
        "A",
        no_generics(),
        vec![
            TraitItem::AssocTy {
                ident: s("T"),
                bounds: vec![
                    Bound::TraitBound(simple_path("Clone")),
                    Bound::Outlives(s("static")),
                ],
                default_ty: None,
            },
            TraitItem::Method(method(
                "foo",
                Receiver::Shared,
                vec![param("x", self_assoc_ty("T"))],
                Some(self_assoc_ty("T")),
            )),
        ],
    );
    let out = do_automock(&directives, &Decl::Trait(input)).unwrap();
    let Output::Handoff(ms) = out else { panic!("expected a builder handoff") };
    assert_eq!(ms.name, s("A"));
    assert_eq!(ms.vis, Vis::Inherited);
    assert!(ms.methods.is_empty());
    assert_eq!(ms.traits.len(), 1);
    let synthesized = &ms.traits[0];
    assert_eq!(
        synthesized.items[0],
        TraitItem::AssocTy { ident: s("T"), bounds: vec![], default_ty: Some(simple_ty("u32")) }
    );
    assert_eq!(
        synthesized.items[1],
        TraitItem::Method(method(
            "foo",
            Receiver::Shared,
            vec![param("x", simple_ty("u32"))],
            Some(simple_ty("u32")),
        ))
    );
}

#[test]
fn foreign() {
    let directives = vec![Directive::ModDirective { ident: s("mock"), has_body: false }];
    let block = ForeignBlock {
        items: vec![ForeignItem::ForeignFn {
            vis: Vis::Public,
            ident: s("foo"),
            decl: fn_decl(
                Receiver::Absent,
                vec![param("x", simple_ty("u32"))],
                Some(simple_ty("i64")),
            ),
        }],
    };
    let out = do_automock(&directives, &Decl::Foreign(block)).unwrap();
    let Output::Emission(mm) = out else { panic!("expected an emitted module") };
    assert_eq!(mm.ident, s("mock"));
    assert_eq!(mm.items.len(), 1);
    let Emitted::MockFn(f) = &mm.items[0] else { panic!("expected a function mock") };
    assert!(f.is_unsafe);
    assert!(!f.is_const);
    assert!(!f.is_async);
    assert_eq!(f.vis, Vis::Public);
    assert_eq!(f.ident, s("foo"));
    assert_eq!(f.store_ident, s("foo_expectation"));
    assert_eq!(f.expect_ident, s("expect_foo"));
    assert_eq!(f.input_tys, vec![simple_ty("u32")]);
    assert_eq!(f.ret, Some(simple_ty("i64")));
    assert_eq!(f.arg_names, vec![s("x")]);
    assert_eq!(
        f.expect_generics.params,
        vec![GenericParam::LtParam { ident: s("guard"), bounds: vec![] }]
    );
    assert_eq!(mm.checkpoint, vec![s("foo_expectation")]);
}

#[test]
fn generic_method() {
    let input = trait_decl(
        Vis::Inherited,
        "A",
        no_generics(),
        vec![TraitItem::Method(Sig {
            is_const: false,
            is_unsafe: false,
            is_async: false,
            ident: s("foo"),
            decl: FnDecl {
                generics: generics(vec![ty_param("T", vec![Bound::Outlives(s("static"))])]),
                receiver: Receiver::Shared,
                params: vec![param("t", simple_ty("T"))],
                ret: None,
                variadic: false,
            },
        })],
    );
    let out = do_automock(&vec![], &Decl::Trait(input)).unwrap();
    let Output::Handoff(ms) = out else { panic!("expected a builder handoff") };
    assert_eq!(ms.name, s("A"));
    assert!(ms.methods.is_empty());
    assert_eq!(ms.traits.len(), 1);
    assert_eq!(
        ms.traits[0].items,
        vec![TraitItem::Method(Sig {
            is_const: false,
            is_unsafe: false,
            is_async: false,
            ident: s("foo"),
            decl: FnDecl {
                generics: generics(vec![ty_param("T", vec![Bound::Outlives(s("static"))])]),
                receiver: Receiver::Shared,
                params: vec![param("t", simple_ty("T"))],
                ret: None,
                variadic: false,
            },
        })]
    );
}

#[test]
fn generic_struct() {
    let g = generics(vec![lt_param("a"), ty_param("T", vec![]), ty_param("V", vec![])]);
    let block = ImplBlock {
        is_unsafe: false,
        generics: g,
        trait_path: None,
        self_ty: TypeExpr::NamedPath(
            false,
            Path {
                leading_colon: false,
                segs: vec![PathSeg {
                    ident: s("GenericStruct"),
                    args: PathArgs::AngleBracketed(vec![
                        GenericArg::Lt(s("a")),
                        GenericArg::Ty(simple_ty("T")),
                        GenericArg::Ty(simple_ty("V")),
                    ]),
                }],
            },
        ),
        items: vec![ImplItem::Method(method(
            "foo",
            Receiver::Shared,
            vec![param("x", simple_ty("u32"))],
            Some(simple_ty("i64")),
        ))],
    };
    let out = do_automock(&vec![], &Decl::Impl(block)).unwrap();
    let Output::Handoff(ms) = out else { panic!("expected a builder handoff") };
    assert_eq!(ms.vis, Vis::Public);
    assert_eq!(ms.name, s("GenericStruct"));
    assert_eq!(
        ms.generics,
        generics(vec![lt_param("a"), ty_param("T", vec![]), ty_param("V", vec![])])
    );
    assert!(ms.traits.is_empty());
    assert_eq!(ms.methods.len(), 1);
    assert_eq!(
        ms.methods[0],
        method("foo", Receiver::Shared, vec![param("x", simple_ty("u32"))], Some(simple_ty("i64")))
    );
}

#[test]
fn generic_struct_with_bounds() {
    let bounds_t = vec![Bound::TraitBound(simple_path("Copy"))];
    let bounds_v = vec![Bound::TraitBound(simple_path("Clone"))];
    let block = ImplBlock {
        is_unsafe: false,
        generics: generics(vec![
            lt_param("a"),
            ty_param("T", bounds_t),
            ty_param("V", bounds_v),
        ]),
        trait_path: None,
        self_ty: simple_ty("GenericStruct"),
        items: vec![ImplItem::Method(method(
            "foo",
            Receiver::Shared,
            vec![param("x", simple_ty("u32"))],
            Some(simple_ty("i64")),
        ))],
    };
    let out = do_automock(&vec![], &Decl::Impl(block)).unwrap();
    let Output::Handoff(ms) = out else { panic!("expected a builder handoff") };
    assert_eq!(ms.name, s("GenericStruct"));
    assert_eq!(
        ms.generics,
        generics(vec![
            lt_param("a"),
            ty_param("T", vec![Bound::TraitBound(simple_path("Copy"))]),
            ty_param("V", vec![Bound::TraitBound(simple_path("Clone"))]),
        ])
    );
    assert_eq!(ms.methods.len(), 1);
}

#[test]
fn generic_trait() {
    let input = trait_decl(
        Vis::Inherited,
        "GenericTrait",
        generics(vec![ty_param("T", vec![])]),
        vec![TraitItem::Method(method("foo", Receiver::Shared, vec![], None))],
    );
    let out = do_automock(&vec![], &Decl::Trait(input)).unwrap();
    let Output::Handoff(ms) = out else { panic!("expected a builder handoff") };
    assert_eq!(ms.name, s("GenericTrait"));
    assert_eq!(ms.generics, generics(vec![ty_param("T", vec![])]));
    assert_eq!(ms.traits.len(), 1);
    assert_eq!(ms.traits[0].generics, generics(vec![ty_param("T", vec![])]));
    assert_eq!(
        ms.traits[0].items,
        vec![TraitItem::Method(method("foo", Receiver::Shared, vec![], None))]
    );
}

#[test]
fn generic_trait_with_bound() {
    let input = trait_decl(
        Vis::Inherited,
        "GenericTrait",
        generics(vec![ty_param("T", vec![Bound::TraitBound(simple_path("Copy"))])]),
        vec![TraitItem::Method(method("foo", Receiver::Shared, vec![], None))],
    );
    let out = do_automock(&vec![], &Decl::Trait(input)).unwrap();
    let Output::Handoff(ms) = out else { panic!("expected a builder handoff") };
    assert_eq!(
        ms.generics,
        generics(vec![ty_param("T", vec![Bound::TraitBound(simple_path("Copy"))])])
    );
    assert_eq!(ms.traits.len(), 1);
}

#[test]
fn impl_trait() {
    let block = ImplBlock {
        is_unsafe: false,
        generics: no_generics(),
        trait_path: Some(simple_path("Foo")),
        self_ty: simple_ty("SomeStruct"),
        items: vec![ImplItem::Method(method(
            "foo",
            Receiver::Shared,
            vec![param("x", simple_ty("u32"))],
            Some(simple_ty("i64")),
        ))],
    };
    let out = do_automock(&vec![], &Decl::Impl(block)).unwrap();
    let Output::Handoff(ms) = out else { panic!("expected a builder handoff") };
    assert_eq!(ms.vis, Vis::Public);
    assert_eq!(ms.name, s("SomeStruct"));
    assert!(ms.methods.is_empty());
    assert_eq!(ms.traits.len(), 1);
    let tr = &ms.traits[0];
    assert_eq!(tr.vis, Vis::Public);
    assert_eq!(tr.ident, s("Foo"));
    assert_eq!(tr.generics, no_generics());
    assert_eq!(
        tr.items,
        vec![TraitItem::Method(method(
            "foo",
            Receiver::Shared,
            vec![param("x", simple_ty("u32"))],
            Some(simple_ty("i64")),
        ))]
    );
}

#[test]
fn impl_trait_on_generic() {
    let block = ImplBlock {
        is_unsafe: false,
        generics: generics(vec![ty_param("T", vec![])]),
        trait_path: Some(simple_path("Foo")),
        self_ty: TypeExpr::NamedPath(
            false,
            Path {
                leading_colon: false,
                segs: vec![PathSeg {
                    ident: s("SomeStruct"),
                    args: PathArgs::AngleBracketed(vec![GenericArg::Ty(simple_ty("T"))]),
                }],
            },
        ),
        items: vec![ImplItem::Method(method(
            "foo",
            Receiver::Shared,
            vec![param("x", simple_ty("u32"))],
            Some(simple_ty("i64")),
        ))],
    };
    let out = do_automock(&vec![], &Decl::Impl(block)).unwrap();
    let Output::Handoff(ms) = out else { panic!("expected a builder handoff") };
    assert_eq!(ms.name, s("SomeStruct"));
    assert_eq!(ms.generics, generics(vec![ty_param("T", vec![])]));
    // The trait reference carries no arguments, so the synthetic trait keeps
    // no generics at all.
    assert_eq!(ms.traits[0].generics, no_generics());
    assert_eq!(ms.traits[0].ident, s("Foo"));
}

#[test]
fn method_by_value() {
    let block = ImplBlock {
        is_unsafe: false,
        generics: no_generics(),
        trait_path: None,
        self_ty: simple_ty("MethodByValue"),
        items: vec![ImplItem::Method(method(
            "foo",
            Receiver::Owned,
            vec![param("x", simple_ty("u32"))],
            Some(simple_ty("i64")),
        ))],
    };
    let out = do_automock(&vec![], &Decl::Impl(block)).unwrap();
    let Output::Handoff(ms) = out else { panic!("expected a builder handoff") };
    assert_eq!(ms.methods.len(), 1);
    assert_eq!(ms.methods[0].decl.receiver, Receiver::Owned);
}

#[test]
fn module() {
    let m = ModuleDecl {
        ident: s("foo"),
        content: Some(vec![ModItem::ModFn {
            vis: Vis::Public,
            sig: method(
                "bar",
                Receiver::Absent,
                vec![param("x", simple_ty("u32"))],
                Some(simple_ty("i64")),
            ),
        }]),
    };
    let out = do_automock(&vec![], &Decl::Module(m)).unwrap();
    let Output::Emission(mm) = out else { panic!("expected an emitted module") };
    assert_eq!(mm.ident, s("mock_foo"));
    assert_eq!(mm.items.len(), 1);
    let Emitted::MockFn(f) = &mm.items[0] else { panic!("expected a function mock") };
    assert_eq!(f.vis, Vis::Public);
    assert!(!f.is_unsafe);
    assert_eq!(f.ident, s("bar"));
    assert_eq!(f.store_ident, s("bar_expectation"));
    assert_eq!(f.expect_ident, s("expect_bar"));
    assert_eq!(f.input_tys, vec![simple_ty("u32")]);
    assert_eq!(f.ret, Some(simple_ty("i64")));
    assert_eq!(mm.checkpoint, vec![s("bar_expectation")]);
}

#[test]
fn pub_trait() {
    let input = trait_decl(
        Vis::Public,
        "SimpleTrait",
        no_generics(),
        vec![TraitItem::Method(method("foo", Receiver::Shared, vec![], None))],
    );
    let out = do_automock(&vec![], &Decl::Trait(input)).unwrap();
    let Output::Handoff(ms) = out else { panic!("expected a builder handoff") };
    assert_eq!(ms.vis, Vis::Public);
    assert_eq!(ms.name, s("SimpleTrait"));
    assert_eq!(ms.traits[0].vis, Vis::Public);
}

#[test]
fn simple_struct() {
    let block = ImplBlock {
        is_unsafe: false,
        generics: no_generics(),
        trait_path: None,
        self_ty: simple_ty("SimpleStruct"),
        items: vec![ImplItem::Method(method(
            "foo",
            Receiver::Shared,
            vec![param("x", simple_ty("u32"))],
            Some(simple_ty("i64")),
        ))],
    };
    let out = do_automock(&vec![], &Decl::Impl(block)).unwrap();
    let Output::Handoff(ms) = out else { panic!("expected a builder handoff") };
    assert_eq!(ms.vis, Vis::Public);
    assert_eq!(ms.name, s("SimpleStruct"));
    assert!(ms.traits.is_empty());
    assert_eq!(
        ms.methods,
        vec![method("foo", Receiver::Shared, vec![param("x", simple_ty("u32"))], Some(simple_ty("i64")))]
    );
}

#[test]
fn simple_trait() {
    let input = trait_decl(
        Vis::Inherited,
        "SimpleTrait",
        no_generics(),
        vec![TraitItem::Method(method(
            "foo",
            Receiver::Shared,
            vec![param("x", simple_ty("u32"))],
            Some(simple_ty("i64")),
        ))],
    );
    let out = do_automock(&vec![], &Decl::Trait(input)).unwrap();
    let Output::Handoff(ms) = out else { panic!("expected a builder handoff") };
    assert_eq!(ms.vis, Vis::Inherited);
    assert_eq!(ms.name, s("SimpleTrait"));
    assert!(ms.methods.is_empty());
    assert_eq!(
        ms.traits[0].items,
        vec![TraitItem::Method(method(
            "foo",
            Receiver::Shared,
            vec![param("x", simple_ty("u32"))],
            Some(simple_ty("i64")),
        ))]
    );
}

#[test]
fn static_method() {
    let input = trait_decl(
        Vis::Inherited,
        "A",
        no_generics(),
        vec![
            TraitItem::Method(method(
                "foo",
                Receiver::Shared,
                vec![param("x", simple_ty("u32"))],
                Some(simple_ty("u32")),
            )),
            TraitItem::Method(method("bar", Receiver::Absent, vec![], Some(simple_ty("u32")))),
        ],
    );
    let out = do_automock(&vec![], &Decl::Trait(input)).unwrap();
    let Output::Handoff(ms) = out else { panic!("expected a builder handoff") };
    assert_eq!(ms.traits[0].items.len(), 2);
    let TraitItem::Method(bar) = &ms.traits[0].items[1] else { panic!("expected a method") };
    assert_eq!(bar.ident, s("bar"));
    assert_eq!(bar.decl.receiver, Receiver::Absent);
}

#[test]
fn static_constructor_in_trait() {
    let input = trait_decl(
        Vis::Inherited,
        "A",
        no_generics(),
        vec![TraitItem::Method(method(
            "new",
            Receiver::Absent,
            vec![],
            Some(simple_ty("Self")),
        ))],
    );
    let out = do_automock(&vec![], &Decl::Trait(input)).unwrap();
    let Output::Handoff(ms) = out else { panic!("expected a builder handoff") };
    // A bare one-segment `Self` return type is not an associated-type path,
    // so it passes through substitution unchanged.
    assert_eq!(
        ms.traits[0].items,
        vec![TraitItem::Method(method("new", Receiver::Absent, vec![], Some(simple_ty("Self"))))]
    );
}

#[test]
fn two_args() {
    let block = ImplBlock {
        is_unsafe: false,
        generics: no_generics(),
        trait_path: None,
        self_ty: simple_ty("TwoArgs"),
        items: vec![ImplItem::Method(method(
            "foo",
            Receiver::Shared,
            vec![param("x", simple_ty("u32")), param("y", simple_ty("u32"))],
            Some(simple_ty("i64")),
        ))],
    };
    let out = do_automock(&vec![], &Decl::Impl(block)).unwrap();
    let Output::Handoff(ms) = out else { panic!("expected a builder handoff") };
    assert_eq!(ms.methods.len(), 1);
    assert_eq!(ms.methods[0].decl.params.len(), 2);
    assert_eq!(ms.methods[0].decl.params[1], param("y", simple_ty("u32")));
}
