//! Component-level checks: the substitution engine's edge cases, the generic
//! filter, the attribute parser, and one input for every diagnostic.

use mocksynth::ast::{
    Bound, Config, Decl, Directive, FnDecl, ForeignBlock, ForeignItem, GenericArg, GenericParam,
    Generics, ImplBlock, ImplItem, ModItem, ModuleDecl, Output, Param, Path, PathArgs, PathSeg,
    Receiver, Sig, TraitDecl, TraitItem, TypeExpr, Vis,
};
use mocksynth::generics::{filter_generics, find_ident_from_path};
use mocksynth::synth::do_automock;
use mocksynth::Diag;

fn s(x: &str) -> String {
    x.to_string()
}

fn seg(name: &str) -> PathSeg {
    PathSeg { ident: s(name), args: PathArgs::Absent }
}

fn simple_path(name: &str) -> Path {
    Path { leading_colon: false, segs: vec![seg(name)] }
}

fn simple_ty(name: &str) -> TypeExpr {
    TypeExpr::NamedPath(false, simple_path(name))
}

fn self_assoc_ty(assoc: &str) -> TypeExpr {
    TypeExpr::NamedPath(
        false,
        Path { leading_colon: false, segs: vec![seg("Self"), seg(assoc)] },
    )
}

fn no_generics() -> Generics {
    Generics { bracketed: false, params: vec![], has_where_clause: false }
}

fn sub_t_u32() -> Vec<Directive> {
    vec![Directive::TypeDirective { ident: s("T"), default_ty: Some(simple_ty("u32")) }]
}

fn config(directives: &Vec<Directive>) -> Config {
    Config::from_directives(directives).unwrap()
}

fn method(name: &str, receiver: Receiver, params: Vec<Param>, ret: Option<TypeExpr>) -> Sig {
    Sig {
        is_const: false,
        is_unsafe: false,
        is_async: false,
        ident: s(name),
        decl: FnDecl { generics: no_generics(), receiver, params, ret, variadic: false },
    }
}

// --- substitution on terminal and compound types ---

#[test]
fn substitute_terminal_types_unchanged() {
    let cfg = config(&sub_t_u32());
    assert_eq!(cfg.substitute_type(&TypeExpr::Infer), Ok(TypeExpr::Infer));
    assert_eq!(cfg.substitute_type(&TypeExpr::Never), Ok(TypeExpr::Never));
}

#[test]
fn substitute_compound_types() {
    let cfg = config(&sub_t_u32());
    let input = TypeExpr::Tup(vec![
        TypeExpr::Slice(Box::new(self_assoc_ty("T"))),
        TypeExpr::Ref(Some(s("a")), false, Box::new(self_assoc_ty("T"))),
        TypeExpr::BareFn(vec![self_assoc_ty("T")], Some(Box::new(self_assoc_ty("T")))),
        simple_ty("bool"),
    ]);
    let expected = TypeExpr::Tup(vec![
        TypeExpr::Slice(Box::new(simple_ty("u32"))),
        TypeExpr::Ref(Some(s("a")), false, Box::new(simple_ty("u32"))),
        TypeExpr::BareFn(vec![simple_ty("u32")], Some(Box::new(simple_ty("u32")))),
        simple_ty("bool"),
    ]);
    assert_eq!(cfg.substitute_type(&input), Ok(expected));
}

#[test]
fn substitute_leaves_unmapped_paths() {
    let cfg = config(&sub_t_u32());
    // A different associated type, a plain path, and a rooted path all stay.
    assert_eq!(cfg.substitute_type(&self_assoc_ty("U")), Ok(self_assoc_ty("U")));
    assert_eq!(cfg.substitute_type(&simple_ty("T")), Ok(simple_ty("T")));
    let rooted = TypeExpr::NamedPath(
        false,
        Path { leading_colon: true, segs: vec![seg("Self"), seg("T")] },
    );
    let rooted_again = TypeExpr::NamedPath(
        false,
        Path { leading_colon: true, segs: vec![seg("Self"), seg("T")] },
    );
    assert_eq!(cfg.substitute_type(&rooted), Ok(rooted_again));
}

#[test]
fn substitute_last_directive_wins() {
    let directives = vec![
        Directive::TypeDirective { ident: s("T"), default_ty: Some(simple_ty("u32")) },
        Directive::TypeDirective { ident: s("T"), default_ty: Some(simple_ty("i64")) },
    ];
    let cfg = config(&directives);
    assert_eq!(cfg.substitute_type(&self_assoc_ty("T")), Ok(simple_ty("i64")));
}

#[test]
fn substitute_rejects_opaque_nodes() {
    let cfg = config(&vec![]);
    assert_eq!(cfg.substitute_type(&TypeExpr::MacroTy), Err(Diag::OpaqueTypeNode));
    assert_eq!(cfg.substitute_type(&TypeExpr::VerbatimTy), Err(Diag::OpaqueTypeNode));
    // The failure surfaces from under a compound node too.
    let nested = TypeExpr::Paren(Box::new(TypeExpr::MacroTy));
    assert_eq!(cfg.substitute_type(&nested), Err(Diag::OpaqueTypeNode));
}

#[test]
fn substitute_rejects_qualified_self_path() {
    let cfg = config(&vec![]);
    let qualified = TypeExpr::NamedPath(true, simple_path("T"));
    assert_eq!(cfg.substitute_type(&qualified), Err(Diag::QualifiedSelfPath));
}

#[test]
fn substitute_bound_to_path_succeeds() {
    let directives = vec![Directive::TypeDirective {
        ident: s("T"),
        default_ty: Some(simple_ty("Clone")),
    }];
    let cfg = config(&directives);
    let input = TypeExpr::TraitObject(vec![Bound::TraitBound(Path {
        leading_colon: false,
        segs: vec![seg("Self"), seg("T")],
    })]);
    let expected = TypeExpr::TraitObject(vec![Bound::TraitBound(simple_path("Clone"))]);
    assert_eq!(cfg.substitute_type(&input), Ok(expected));
}

#[test]
fn substitute_bound_to_non_path_fails() {
    let directives = vec![Directive::TypeDirective {
        ident: s("T"),
        default_ty: Some(TypeExpr::Tup(vec![])),
    }];
    let cfg = config(&directives);
    let input = TypeExpr::OpaqueReturn(vec![Bound::TraitBound(Path {
        leading_colon: false,
        segs: vec![seg("Self"), seg("T")],
    })]);
    assert_eq!(cfg.substitute_type(&input), Err(Diag::NonPathBoundSubstitution));
}

// --- the generic filter ---

#[test]
fn filter_keeps_referenced_param_with_bound() {
    // Full generics <A: Copy, B: Clone>, use-site arguments <A>.
    let g = Generics {
        bracketed: true,
        params: vec![
            GenericParam::TyParam {
                ident: s("A"),
                bounds: vec![Bound::TraitBound(simple_path("Copy"))],
            },
            GenericParam::TyParam {
                ident: s("B"),
                bounds: vec![Bound::TraitBound(simple_path("Clone"))],
            },
        ],
        has_where_clause: false,
    };
    let args = PathArgs::AngleBracketed(vec![GenericArg::Ty(simple_ty("A"))]);
    let r = filter_generics(&g, &args).unwrap();
    assert!(r.bracketed);
    assert_eq!(
        r.params,
        vec![GenericParam::TyParam {
            ident: s("A"),
            bounds: vec![Bound::TraitBound(simple_path("Copy"))],
        }]
    );
    assert!(!r.has_where_clause);
}

#[test]
fn filter_keeps_lifetimes_and_drops_consts() {
    let g = Generics {
        bracketed: true,
        params: vec![
            GenericParam::LtParam { ident: s("a"), bounds: vec![] },
            GenericParam::ConstParam { ident: s("N") },
            GenericParam::TyParam { ident: s("T"), bounds: vec![] },
        ],
        has_where_clause: false,
    };
    // The const parameter is dropped even though an argument names it.
    let args = PathArgs::AngleBracketed(vec![
        GenericArg::Lt(s("a")),
        GenericArg::Ty(simple_ty("N")),
        GenericArg::Ty(simple_ty("T")),
    ]);
    let r = filter_generics(&g, &args).unwrap();
    assert_eq!(
        r.params,
        vec![
            GenericParam::LtParam { ident: s("a"), bounds: vec![] },
            GenericParam::TyParam { ident: s("T"), bounds: vec![] },
        ]
    );
}

#[test]
fn filter_no_arguments_yields_sentinel() {
    let g = Generics {
        bracketed: true,
        params: vec![GenericParam::TyParam { ident: s("T"), bounds: vec![] }],
        has_where_clause: false,
    };
    let r = filter_generics(&g, &PathArgs::Absent).unwrap();
    assert!(!r.bracketed);
    assert!(r.params.is_empty());
}

#[test]
fn filter_nothing_kept_yields_sentinel() {
    let g = Generics {
        bracketed: true,
        params: vec![GenericParam::TyParam { ident: s("T"), bounds: vec![] }],
        has_where_clause: false,
    };
    let args = PathArgs::AngleBracketed(vec![GenericArg::Ty(simple_ty("U"))]);
    let r = filter_generics(&g, &args).unwrap();
    assert!(!r.bracketed);
    assert!(r.params.is_empty());
}

#[test]
fn filter_rejects_parenthesized_arguments() {
    let g = no_generics();
    assert_eq!(filter_generics(&g, &PathArgs::Parenthesized), Err(Diag::FnTraitArguments));
}

#[test]
fn filter_rejects_where_clause() {
    let g = Generics {
        bracketed: true,
        params: vec![GenericParam::TyParam { ident: s("T"), bounds: vec![] }],
        has_where_clause: true,
    };
    let args = PathArgs::AngleBracketed(vec![GenericArg::Ty(simple_ty("T"))]);
    assert_eq!(filter_generics(&g, &args), Err(Diag::WhereClauseUnsupported));
}

// --- the path resolver ---

#[test]
fn resolver_accepts_single_segment() {
    let p = Path {
        leading_colon: false,
        segs: vec![PathSeg {
            ident: s("Foo"),
            args: PathArgs::AngleBracketed(vec![GenericArg::Ty(simple_ty("T"))]),
        }],
    };
    let (ident, args) = find_ident_from_path(&p).unwrap();
    assert_eq!(ident, s("Foo"));
    assert_eq!(args, PathArgs::AngleBracketed(vec![GenericArg::Ty(simple_ty("T"))]));
}

#[test]
fn resolver_rejects_multi_segment() {
    let p = Path { leading_colon: false, segs: vec![seg("outer"), seg("Foo")] };
    assert_eq!(find_ident_from_path(&p), Err(Diag::MultiSegmentPath));
}

// --- the attribute parser ---

#[test]
fn attrs_reject_mod_directive_with_body() {
    let directives = vec![Directive::ModDirective { ident: s("mock"), has_body: true }];
    let r = do_automock(&directives, &Decl::Unsupported);
    assert_eq!(r, Err(Diag::ModDirectiveWithBody));
}

#[test]
fn attrs_reject_type_directive_without_default() {
    let directives = vec![Directive::TypeDirective { ident: s("T"), default_ty: None }];
    let r = do_automock(&directives, &Decl::Unsupported);
    assert_eq!(r, Err(Diag::TypeDirectiveWithoutDefault));
}

#[test]
fn attrs_reject_unknown_directive() {
    let directives = vec![Directive::UnknownDirective];
    let r = do_automock(&directives, &Decl::Unsupported);
    assert_eq!(r, Err(Diag::BadDirective));
}

// --- trait strategy failures ---

#[test]
fn unmapped_associated_type_fails() {
    let input = TraitDecl {
        vis: Vis::Inherited,
        is_unsafe: false,
        ident: s("A"),
        generics: no_generics(),
        items: vec![TraitItem::AssocTy { ident: s("T"), bounds: vec![], default_ty: None }],
    };
    let r = do_automock(&vec![], &Decl::Trait(input));
    assert_eq!(r, Err(Diag::MissingAssociatedDefault));
}

// --- impl strategy failures ---

#[test]
fn impl_multi_segment_self_path_fails() {
    let block = ImplBlock {
        is_unsafe: false,
        generics: no_generics(),
        trait_path: None,
        self_ty: TypeExpr::NamedPath(
            false,
            Path { leading_colon: false, segs: vec![seg("outer"), seg("SomeStruct")] },
        ),
        items: vec![],
    };
    assert_eq!(do_automock(&vec![], &Decl::Impl(block)), Err(Diag::MultiSegmentPath));
}

#[test]
fn impl_non_path_self_type_fails() {
    let block = ImplBlock {
        is_unsafe: false,
        generics: no_generics(),
        trait_path: None,
        self_ty: TypeExpr::Tup(vec![]),
        items: vec![],
    };
    assert_eq!(do_automock(&vec![], &Decl::Impl(block)), Err(Diag::NonPathSelfType));
}

#[test]
fn impl_unsupported_item_fails() {
    let block = ImplBlock {
        is_unsafe: false,
        generics: no_generics(),
        trait_path: None,
        self_ty: simple_ty("SomeStruct"),
        items: vec![ImplItem::UnsupportedItem],
    };
    assert_eq!(do_automock(&vec![], &Decl::Impl(block)), Err(Diag::UnsupportedImplItem));
}

#[test]
fn impl_const_items_are_dropped() {
    let block = ImplBlock {
        is_unsafe: false,
        generics: no_generics(),
        trait_path: None,
        self_ty: simple_ty("SomeStruct"),
        items: vec![
            ImplItem::ConstItem,
            ImplItem::Method(method("foo", Receiver::Shared, vec![], None)),
        ],
    };
    let out = do_automock(&vec![], &Decl::Impl(block)).unwrap();
    let Output::Handoff(ms) = out else { panic!("expected a builder handoff") };
    assert_eq!(ms.methods.len(), 1);
}

// --- foreign strategy ---

#[test]
fn foreign_without_module_name_fails() {
    let block = ForeignBlock { items: vec![] };
    assert_eq!(do_automock(&vec![], &Decl::Foreign(block)), Err(Diag::MissingModuleName));
}

#[test]
fn foreign_variadic_function_fails() {
    let directives = vec![Directive::ModDirective { ident: s("mock"), has_body: false }];
    let block = ForeignBlock {
        items: vec![ForeignItem::ForeignFn {
            vis: Vis::Public,
            ident: s("printf"),
            decl: FnDecl {
                generics: no_generics(),
                receiver: Receiver::Absent,
                params: vec![],
                ret: None,
                variadic: true,
            },
        }],
    };
    assert_eq!(do_automock(&directives, &Decl::Foreign(block)), Err(Diag::VariadicFunction));
}

#[test]
fn foreign_copies_statics_and_types_through() {
    let directives = vec![Directive::ModDirective { ident: s("mock"), has_body: false }];
    let block = ForeignBlock {
        items: vec![
            ForeignItem::ForeignStatic(s("pub static ERRNO: i32;")),
            ForeignItem::ForeignTy(s("pub type Handle;")),
        ],
    };
    let out = do_automock(&directives, &Decl::Foreign(block)).unwrap();
    let Output::Emission(mm) = out else { panic!("expected an emitted module") };
    assert_eq!(
        mm.items,
        vec![
            mocksynth::ast::Emitted::Passthrough(s("pub static ERRNO: i32;")),
            mocksynth::ast::Emitted::Passthrough(s("pub type Handle;")),
        ]
    );
    assert!(mm.checkpoint.is_empty());
}

#[test]
fn foreign_macro_item_fails() {
    let directives = vec![Directive::ModDirective { ident: s("mock"), has_body: false }];
    let block = ForeignBlock { items: vec![ForeignItem::ForeignMacro] };
    assert_eq!(do_automock(&directives, &Decl::Foreign(block)), Err(Diag::MacroItem));
}

#[test]
fn foreign_verbatim_item_fails() {
    let directives = vec![Directive::ModDirective { ident: s("mock"), has_body: false }];
    let block = ForeignBlock { items: vec![ForeignItem::ForeignVerbatim] };
    assert_eq!(do_automock(&directives, &Decl::Foreign(block)), Err(Diag::UnrecognizedItem));
}

// --- module strategy ---

#[test]
fn module_without_content_yields_empty_mock() {
    let m = ModuleDecl { ident: s("foo"), content: None };
    let out = do_automock(&vec![], &Decl::Module(m)).unwrap();
    let Output::Emission(mm) = out else { panic!("expected an emitted module") };
    assert_eq!(mm.ident, s("mock_foo"));
    assert!(mm.items.is_empty());
    assert!(mm.checkpoint.is_empty());
}

#[test]
fn module_copies_items_through_and_ignores_imports() {
    let m = ModuleDecl {
        ident: s("foo"),
        content: Some(vec![
            ModItem::ModIgnored,
            ModItem::ModStatic(s("static X: u32 = 0;")),
            ModItem::ModConst(s("const K: u32 = 7;")),
            ModItem::ModTyAlias(s("type Alias = u32;")),
            ModItem::ModTraitAlias(s("trait Alias2 = Clone;")),
        ]),
    };
    let out = do_automock(&vec![], &Decl::Module(m)).unwrap();
    let Output::Emission(mm) = out else { panic!("expected an emitted module") };
    assert_eq!(mm.items.len(), 4);
    assert!(mm.checkpoint.is_empty());
}

#[test]
fn module_checkpoint_order_follows_declaration_order() {
    let m = ModuleDecl {
        ident: s("foo"),
        content: Some(vec![
            ModItem::ModFn {
                vis: Vis::Inherited,
                sig: method("alpha", Receiver::Absent, vec![], None),
            },
            ModItem::ModFn {
                vis: Vis::Inherited,
                sig: method("beta", Receiver::Absent, vec![], None),
            },
        ]),
    };
    let out = do_automock(&vec![], &Decl::Module(m)).unwrap();
    let Output::Emission(mm) = out else { panic!("expected an emitted module") };
    assert_eq!(mm.checkpoint, vec![s("alpha_expectation"), s("beta_expectation")]);
}

#[test]
fn module_nested_item_fails() {
    let m = ModuleDecl { ident: s("foo"), content: Some(vec![ModItem::ModNested]) };
    assert_eq!(do_automock(&vec![], &Decl::Module(m)), Err(Diag::NestedItem));
}

#[test]
fn module_macro_item_fails() {
    let m = ModuleDecl { ident: s("foo"), content: Some(vec![ModItem::ModMacro]) };
    assert_eq!(do_automock(&vec![], &Decl::Module(m)), Err(Diag::MacroItem));
}

#[test]
fn module_verbatim_item_fails() {
    let m = ModuleDecl { ident: s("foo"), content: Some(vec![ModItem::ModVerbatim]) };
    assert_eq!(do_automock(&vec![], &Decl::Module(m)), Err(Diag::UnrecognizedItem));
}

#[test]
fn module_function_qualifiers_taken_verbatim() {
    let m = ModuleDecl {
        ident: s("foo"),
        content: Some(vec![ModItem::ModFn {
            vis: Vis::Crate,
            sig: Sig {
                is_const: false,
                is_unsafe: true,
                is_async: true,
                ident: s("bar"),
                decl: FnDecl {
                    generics: no_generics(),
                    receiver: Receiver::Absent,
                    params: vec![],
                    ret: None,
                    variadic: false,
                },
            },
        }]),
    };
    let out = do_automock(&vec![], &Decl::Module(m)).unwrap();
    let Output::Emission(mm) = out else { panic!("expected an emitted module") };
    let mocksynth::ast::Emitted::MockFn(f) = &mm.items[0] else { panic!("expected a mock") };
    assert_eq!(f.vis, Vis::Crate);
    assert!(f.is_unsafe);
    assert!(f.is_async);
    assert!(!f.is_const);
}

// --- dispatch ---

#[test]
fn unsupported_declaration_fails() {
    assert_eq!(do_automock(&vec![], &Decl::Unsupported), Err(Diag::UnsupportedDeclaration));
}

#[test]
fn substitute_does_not_descend_into_path_arguments() {
    // A named path is replaced whole or left alone; substitution does not
    // walk into its generic arguments.
    let cfg = config(&sub_t_u32());
    let input = TypeExpr::NamedPath(
        false,
        Path {
            leading_colon: false,
            segs: vec![PathSeg {
                ident: s("Vec"),
                args: PathArgs::AngleBracketed(vec![GenericArg::Ty(self_assoc_ty("T"))]),
            }],
        },
    );
    let expected = TypeExpr::NamedPath(
        false,
        Path {
            leading_colon: false,
            segs: vec![PathSeg {
                ident: s("Vec"),
                args: PathArgs::AngleBracketed(vec![GenericArg::Ty(self_assoc_ty("T"))]),
            }],
        },
    );
    assert_eq!(cfg.substitute_type(&input), Ok(expected));
}

#[test]
fn filter_accepts_empty_angle_brackets_as_plain_ident() {
    // An argument written `T<>` still counts as a plain reference to `T`.
    let g = Generics {
        bracketed: true,
        params: vec![GenericParam::TyParam { ident: s("T"), bounds: vec![] }],
        has_where_clause: false,
    };
    let args = PathArgs::AngleBracketed(vec![GenericArg::Ty(TypeExpr::NamedPath(
        false,
        Path {
            leading_colon: false,
            segs: vec![PathSeg { ident: s("T"), args: PathArgs::AngleBracketed(vec![]) }],
        },
    ))]);
    let r = filter_generics(&g, &args).unwrap();
    assert_eq!(r.params.len(), 1);
}

#[test]
fn expect_accessor_generics_gain_guard_lifetime() {
    let m = ModuleDecl {
        ident: s("foo"),
        content: Some(vec![ModItem::ModFn {
            vis: Vis::Public,
            sig: Sig {
                is_const: false,
                is_unsafe: false,
                is_async: false,
                ident: s("bar"),
                decl: FnDecl {
                    generics: Generics {
                        bracketed: true,
                        params: vec![GenericParam::TyParam { ident: s("T"), bounds: vec![] }],
                        has_where_clause: false,
                    },
                    receiver: Receiver::Absent,
                    params: vec![Param { name: s("t"), ty: simple_ty("T") }],
                    ret: None,
                    variadic: false,
                },
            },
        }]),
    };
    let out = do_automock(&vec![], &Decl::Module(m)).unwrap();
    let Output::Emission(mm) = out else { panic!("expected an emitted module") };
    let mocksynth::ast::Emitted::MockFn(f) = &mm.items[0] else { panic!("expected a mock") };
    assert_eq!(
        f.expect_generics.params,
        vec![
            GenericParam::TyParam { ident: s("T"), bounds: vec![] },
            GenericParam::LtParam { ident: s("guard"), bounds: vec![] },
        ]
    );
    assert!(f.expect_generics.bracketed);
}
