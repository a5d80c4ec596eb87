//! The type substitution engine: rewrites every occurrence of a
//! self-referential associated-type path inside a type expression, a trait
//! bound, or a full trait declaration, following the configuration's mapping.

use vstd::prelude::*;
use vstd::string::StringExecFns;
use crate::Diag;
use crate::ast::{Bound, Config, Param, Path, Sig, TraitDecl, TraitItem, TypeExpr};
use crate::model::{
    bounds_view, group_view_lemmas, opt_ty_view, params_view, titem_view, titems_view,
    tys_view, BoundV, FnDeclV, ParamV, PathV, SigV, TraitDeclV, TraitItemV, TypeV,
};

verus! {

broadcast use group_view_lemmas;

// ---------------------------------------------------------------------------
// The meaning of substitution, over the ghost mirror.
// ---------------------------------------------------------------------------

/// The associated-type lookup: a path names a configured substitution exactly
/// when it has no leading root qualifier, spans exactly two segments, starts
/// at the reserved self identifier, and its second segment is mapped.
pub open spec fn get_path_spec(m: Map<Seq<char>, TypeV>, p: PathV) -> Option<TypeV> {
    if !p.leading_colon && p.segs.len() == 2 && p.segs[0].ident == "Self"@
        && m.contains_key(p.segs[1].ident) {
        Some(m[p.segs[1].ident])
    } else {
        None
    }
}

/// Substituting into one trait bound: a trait-path lookup may only resolve to
/// another simple path type; any other type shape cannot stand as a bound.
pub open spec fn subst_bound_spec(m: Map<Seq<char>, TypeV>, b: BoundV) -> Result<BoundV, Diag> {
    match b {
        BoundV::TraitBound(p) => match get_path_spec(m, p) {
            Some(TypeV::NamedPath(q, p2)) => Ok(BoundV::TraitBound(p2)),
            Some(_) => Err(Diag::NonPathBoundSubstitution),
            None => Ok(b),
        },
        BoundV::Outlives(_) => Ok(b),
    }
}

/// Substituting into a bound list, stopped at the first failure.
pub open spec fn subst_bounds_spec(m: Map<Seq<char>, TypeV>, bs: Seq<BoundV>) -> Result<
    Seq<BoundV>,
    Diag,
>
    decreases bs,
{
    if bs.len() == 0 {
        Ok(Seq::empty())
    } else {
        match subst_bounds_spec(m, bs.drop_last()) {
            Err(d) => Err(d),
            Ok(front) => match subst_bound_spec(m, bs.last()) {
                Err(d) => Err(d),
                Ok(l) => Ok(front.push(l)),
            },
        }
    }
}

/// Substituting into one type expression. Compound kinds recurse into their
/// element types; a named path is replaced whole when it resolves; inferred
/// and never types are left unchanged; macro-produced and verbatim nodes fail.
pub open spec fn subst_ty_spec(m: Map<Seq<char>, TypeV>, t: TypeV) -> Result<TypeV, Diag>
    decreases t,
{
    match t {
        TypeV::Slice(e) => match subst_ty_spec(m, *e) {
            Ok(e2) => Ok(TypeV::Slice(Box::new(e2))),
            Err(d) => Err(d),
        },
        TypeV::Array(e, n) => match subst_ty_spec(m, *e) {
            Ok(e2) => Ok(TypeV::Array(Box::new(e2), n)),
            Err(d) => Err(d),
        },
        TypeV::RawPtr(mu, e) => match subst_ty_spec(m, *e) {
            Ok(e2) => Ok(TypeV::RawPtr(mu, Box::new(e2))),
            Err(d) => Err(d),
        },
        TypeV::Ref(lt, mu, e) => match subst_ty_spec(m, *e) {
            Ok(e2) => Ok(TypeV::Ref(lt, mu, Box::new(e2))),
            Err(d) => Err(d),
        },
        TypeV::BareFn(ins, out) => match subst_tys_spec(m, ins) {
            Err(d) => Err(d),
            Ok(ins2) => match out {
                Some(o) => match subst_ty_spec(m, *o) {
                    Ok(o2) => Ok(TypeV::BareFn(ins2, Some(Box::new(o2)))),
                    Err(d) => Err(d),
                },
                None => Ok(TypeV::BareFn(ins2, None)),
            },
        },
        TypeV::Tup(ts) => match subst_tys_spec(m, ts) {
            Ok(ts2) => Ok(TypeV::Tup(ts2)),
            Err(d) => Err(d),
        },
        TypeV::NamedPath(q, p) => if q {
            Err(Diag::QualifiedSelfPath)
        } else {
            match get_path_spec(m, p) {
                Some(nt) => Ok(nt),
                None => Ok(TypeV::NamedPath(q, p)),
            }
        },
        TypeV::TraitObject(bs) => match subst_bounds_spec(m, bs) {
            Ok(bs2) => Ok(TypeV::TraitObject(bs2)),
            Err(d) => Err(d),
        },
        TypeV::OpaqueReturn(bs) => match subst_bounds_spec(m, bs) {
            Ok(bs2) => Ok(TypeV::OpaqueReturn(bs2)),
            Err(d) => Err(d),
        },
        TypeV::Paren(e) => match subst_ty_spec(m, *e) {
            Ok(e2) => Ok(TypeV::Paren(Box::new(e2))),
            Err(d) => Err(d),
        },
        TypeV::Group(e) => match subst_ty_spec(m, *e) {
            Ok(e2) => Ok(TypeV::Group(Box::new(e2))),
            Err(d) => Err(d),
        },
        TypeV::MacroTy => Err(Diag::OpaqueTypeNode),
        TypeV::VerbatimTy => Err(Diag::OpaqueTypeNode),
        TypeV::Infer => Ok(t),
        TypeV::Never => Ok(t),
    }
}

/// Substituting into a type list, stopped at the first failure.
pub open spec fn subst_tys_spec(m: Map<Seq<char>, TypeV>, ts: Seq<TypeV>) -> Result<
    Seq<TypeV>,
    Diag,
>
    decreases ts,
{
    if ts.len() == 0 {
        Ok(Seq::empty())
    } else {
        match subst_tys_spec(m, ts.drop_last()) {
            Err(d) => Err(d),
            Ok(front) => match subst_ty_spec(m, ts.last()) {
                Err(d) => Err(d),
                Ok(l) => Ok(front.push(l)),
            },
        }
    }
}

/// Substituting into one value parameter.
pub open spec fn subst_param_spec(m: Map<Seq<char>, TypeV>, p: ParamV) -> Result<ParamV, Diag> {
    match subst_ty_spec(m, p.ty) {
        Ok(t2) => Ok(ParamV { name: p.name, ty: t2 }),
        Err(d) => Err(d),
    }
}

/// Substituting into a parameter list, stopped at the first failure.
pub open spec fn subst_params_spec(m: Map<Seq<char>, TypeV>, ps: Seq<ParamV>) -> Result<
    Seq<ParamV>,
    Diag,
>
    decreases ps,
{
    if ps.len() == 0 {
        Ok(Seq::empty())
    } else {
        match subst_params_spec(m, ps.drop_last()) {
            Err(d) => Err(d),
            Ok(front) => match subst_param_spec(m, ps.last()) {
                Err(d) => Err(d),
                Ok(l) => Ok(front.push(l)),
            },
        }
    }
}

/// Substituting into an optional return type.
pub open spec fn subst_ret_spec(m: Map<Seq<char>, TypeV>, o: Option<TypeV>) -> Result<
    Option<TypeV>,
    Diag,
> {
    match o {
        Some(t) => match subst_ty_spec(m, t) {
            Ok(t2) => Ok(Some(t2)),
            Err(d) => Err(d),
        },
        None => Ok(None),
    }
}

/// Substituting into a method signature: every value parameter's type, then
/// the return type. Generics, receiver, and qualifiers are untouched.
pub open spec fn subst_sig_spec(m: Map<Seq<char>, TypeV>, s: SigV) -> Result<SigV, Diag> {
    match subst_params_spec(m, s.decl.params) {
        Err(d) => Err(d),
        Ok(ps2) => match subst_ret_spec(m, s.decl.ret) {
            Err(d) => Err(d),
            Ok(r2) => Ok(
                SigV {
                    is_const: s.is_const,
                    is_unsafe: s.is_unsafe,
                    is_async: s.is_async,
                    ident: s.ident,
                    decl: FnDeclV {
                        generics: s.decl.generics,
                        receiver: s.decl.receiver,
                        params: ps2,
                        ret: r2,
                        variadic: s.decl.variadic,
                    },
                },
            ),
        },
    }
}

/// Substituting into one trait item. An associated type must be mapped: it
/// gets the mapped type as its concrete default and loses its bounds; an
/// unmapped one fails. A method has its signature substituted.
pub open spec fn subst_titem_spec(m: Map<Seq<char>, TypeV>, it: TraitItemV) -> Result<
    TraitItemV,
    Diag,
> {
    match it {
        TraitItemV::AssocTy { ident, bounds, default_ty } => if m.contains_key(ident) {
            Ok(TraitItemV::AssocTy { ident: ident, bounds: Seq::empty(), default_ty: Some(m[ident]) })
        } else {
            Err(Diag::MissingAssociatedDefault)
        },
        TraitItemV::Method(s) => match subst_sig_spec(m, s) {
            Ok(s2) => Ok(TraitItemV::Method(s2)),
            Err(d) => Err(d),
        },
    }
}

/// Substituting into a trait-item list, stopped at the first failure.
pub open spec fn subst_titems_spec(m: Map<Seq<char>, TypeV>, its: Seq<TraitItemV>) -> Result<
    Seq<TraitItemV>,
    Diag,
>
    decreases its,
{
    if its.len() == 0 {
        Ok(Seq::empty())
    } else {
        match subst_titems_spec(m, its.drop_last()) {
            Err(d) => Err(d),
            Ok(front) => match subst_titem_spec(m, its.last()) {
                Err(d) => Err(d),
                Ok(l) => Ok(front.push(l)),
            },
        }
    }
}

/// Substituting into a whole trait declaration: its items, in order; the
/// trait's own name, visibility, and generics are untouched.
pub open spec fn subst_trait_spec(m: Map<Seq<char>, TypeV>, t: TraitDeclV) -> Result<
    TraitDeclV,
    Diag,
> {
    match subst_titems_spec(m, t.items) {
        Err(d) => Err(d),
        Ok(its2) => Ok(
            TraitDeclV {
                vis: t.vis,
                is_unsafe: t.is_unsafe,
                ident: t.ident,
                generics: t.generics,
                items: its2,
            },
        ),
    }
}

// ---------------------------------------------------------------------------
// Prefix lemmas: a list substitution that failed on a prefix fails the same
// way on the whole list.
// ---------------------------------------------------------------------------

pub proof fn lemma_subst_tys_prefix_err(m: Map<Seq<char>, TypeV>, ts: Seq<TypeV>, i: int)
    requires
        0 <= i <= ts.len(),
        subst_tys_spec(m, ts.take(i)) is Err,
    ensures
        subst_tys_spec(m, ts) == subst_tys_spec(m, ts.take(i)),
    decreases ts.len(),
{
    if i == ts.len() {
        assert(ts.take(i) =~= ts);
    } else {
        assert(ts.drop_last().take(i) =~= ts.take(i));
        lemma_subst_tys_prefix_err(m, ts.drop_last(), i);
    }
}

pub proof fn lemma_subst_bounds_prefix_err(m: Map<Seq<char>, TypeV>, bs: Seq<BoundV>, i: int)
    requires
        0 <= i <= bs.len(),
        subst_bounds_spec(m, bs.take(i)) is Err,
    ensures
        subst_bounds_spec(m, bs) == subst_bounds_spec(m, bs.take(i)),
    decreases bs.len(),
{
    if i == bs.len() {
        assert(bs.take(i) =~= bs);
    } else {
        assert(bs.drop_last().take(i) =~= bs.take(i));
        lemma_subst_bounds_prefix_err(m, bs.drop_last(), i);
    }
}

pub proof fn lemma_subst_params_prefix_err(m: Map<Seq<char>, TypeV>, ps: Seq<ParamV>, i: int)
    requires
        0 <= i <= ps.len(),
        subst_params_spec(m, ps.take(i)) is Err,
    ensures
        subst_params_spec(m, ps) == subst_params_spec(m, ps.take(i)),
    decreases ps.len(),
{
    if i == ps.len() {
        assert(ps.take(i) =~= ps);
    } else {
        assert(ps.drop_last().take(i) =~= ps.take(i));
        lemma_subst_params_prefix_err(m, ps.drop_last(), i);
    }
}

pub proof fn lemma_subst_titems_prefix_err(m: Map<Seq<char>, TypeV>, its: Seq<TraitItemV>, i: int)
    requires
        0 <= i <= its.len(),
        subst_titems_spec(m, its.take(i)) is Err,
    ensures
        subst_titems_spec(m, its) == subst_titems_spec(m, its.take(i)),
    decreases its.len(),
{
    if i == its.len() {
        assert(its.take(i) =~= its);
    } else {
        assert(its.drop_last().take(i) =~= its.take(i));
        lemma_subst_titems_prefix_err(m, its.drop_last(), i);
    }
}

// ---------------------------------------------------------------------------
// The executable engine.
// ---------------------------------------------------------------------------

impl Config {
    /// Looks a path up in the substitution mapping: a hit only for a
    /// two-segment, unqualified path starting at the reserved self identifier
    /// whose second segment is mapped. The mapped type comes back as a copy.
    pub fn get_path(&self, p: &Path) -> (r: Option<TypeExpr>)
        ensures
            opt_ty_view(r) == get_path_spec(self.sub_map(), p@),
    {
        if !p.leading_colon && p.segs.len() == 2 {
            let first = &p.segs[0];
            let kw: String = String::from_str("Self");
            if first.ident == kw {
                match self.find(&p.segs[1].ident) {
                    Some(t) => Some(t.dup()),
                    None => None,
                }
            } else {
                None
            }
        } else {
            None
        }
    }

    /// Recursively substitutes into a type expression, as `subst_ty_spec`
    /// states: the result is the rewritten type, or the first failure.
    pub fn substitute_type(&self, t: &TypeExpr) -> (r: Result<TypeExpr, Diag>)
        ensures
            (match r {
                Ok(t2) => subst_ty_spec(self.sub_map(), t@) == Ok::<TypeV, Diag>(t2@),
                Err(e) => subst_ty_spec(self.sub_map(), t@) == Err::<TypeV, Diag>(e),
            }),
        decreases *t,
    {
        match t {
            TypeExpr::Slice(e) => match self.substitute_type(e) {
                Ok(e2) => Ok(TypeExpr::Slice(Box::new(e2))),
                Err(d) => Err(d),
            },
            TypeExpr::Array(e, n) => match self.substitute_type(e) {
                Ok(e2) => Ok(TypeExpr::Array(Box::new(e2), *n)),
                Err(d) => Err(d),
            },
            TypeExpr::RawPtr(mu, e) => match self.substitute_type(e) {
                Ok(e2) => Ok(TypeExpr::RawPtr(*mu, Box::new(e2))),
                Err(d) => Err(d),
            },
            TypeExpr::Ref(lt, mu, e) => match self.substitute_type(e) {
                Ok(e2) => Ok(TypeExpr::Ref(crate::dup::dup_opt_str(lt), *mu, Box::new(e2))),
                Err(d) => Err(d),
            },
            TypeExpr::BareFn(ins, out) => {
                proof {
                    assert(decreases_to!(TypeExpr::BareFn(*ins, *out) => *ins));
                }
                let ins2 = match self.substitute_type_vec(ins) {
                    Ok(v) => v,
                    Err(d) => {
                        return Err(d);
                    },
                };
                match out {
                    Some(o) => match self.substitute_type(o) {
                        Ok(o2) => Ok(TypeExpr::BareFn(ins2, Some(Box::new(o2)))),
                        Err(d) => Err(d),
                    },
                    None => Ok(TypeExpr::BareFn(ins2, None)),
                }
            },
            TypeExpr::Tup(ts) => {
                proof {
                    assert(decreases_to!(TypeExpr::Tup(*ts) => *ts));
                }
                match self.substitute_type_vec(ts) {
                    Ok(ts2) => Ok(TypeExpr::Tup(ts2)),
                    Err(d) => Err(d),
                }
            },
            TypeExpr::NamedPath(q, p) => {
                if *q {
                    Err(Diag::QualifiedSelfPath)
                } else {
                    match self.get_path(p) {
                        Some(nt) => Ok(nt),
                        None => Ok(TypeExpr::NamedPath(*q, p.dup())),
                    }
                }
            },
            TypeExpr::TraitObject(bs) => match self.substitute_bound_vec(bs) {
                Ok(bs2) => Ok(TypeExpr::TraitObject(bs2)),
                Err(d) => Err(d),
            },
            TypeExpr::OpaqueReturn(bs) => match self.substitute_bound_vec(bs) {
                Ok(bs2) => Ok(TypeExpr::OpaqueReturn(bs2)),
                Err(d) => Err(d),
            },
            TypeExpr::Paren(e) => match self.substitute_type(e) {
                Ok(e2) => Ok(TypeExpr::Paren(Box::new(e2))),
                Err(d) => Err(d),
            },
            TypeExpr::Group(e) => match self.substitute_type(e) {
                Ok(e2) => Ok(TypeExpr::Group(Box::new(e2))),
                Err(d) => Err(d),
            },
            TypeExpr::MacroTy => Err(Diag::OpaqueTypeNode),
            TypeExpr::VerbatimTy => Err(Diag::OpaqueTypeNode),
            TypeExpr::Infer => Ok(TypeExpr::Infer),
            TypeExpr::Never => Ok(TypeExpr::Never),
        }
    }

    /// Substitutes into every type of a list, in order, stopping at the first
    /// failure.
    pub fn substitute_type_vec(&self, ts: &Vec<TypeExpr>) -> (r: Result<Vec<TypeExpr>, Diag>)
        ensures
            (match r {
                Ok(v) => subst_tys_spec(self.sub_map(), tys_view(ts@)) == Ok::<Seq<TypeV>, Diag>(
                    tys_view(v@),
                ),
                Err(e) => subst_tys_spec(self.sub_map(), tys_view(ts@)) == Err::<Seq<TypeV>, Diag>(
                    e,
                ),
            }),
        decreases *ts,
    {
        let ghost m = self.sub_map();
        let ghost tsv = tys_view(ts@);
        let mut out: Vec<TypeExpr> = Vec::new();
        let mut i: usize = 0;
        #[verifier::loop_isolation(false)]
        while i < ts.len()
            invariant
                i <= ts.len(),
                subst_tys_spec(m, tsv.take(i as int)) == Ok::<Seq<TypeV>, Diag>(tys_view(out@)),
            decreases ts.len() - i,
        {
            proof {
                assert(decreases_to!(*ts => ts@[i as int]));
                assert(tsv.take(i + 1).drop_last() =~= tsv.take(i as int));
                assert(tsv.take(i + 1).last() == tsv[i as int]);
            }
            match self.substitute_type(&ts[i]) {
                Ok(e2) => {
                    proof {
                        assert(tys_view(out@.push(e2)) =~= tys_view(out@).push(e2@));
                    }
                    out.push(e2);
                },
                Err(d) => {
                    proof {
                        lemma_subst_tys_prefix_err(m, tsv, i + 1);
                    }
                    return Err(d);
                },
            }
            i += 1;
        }
        proof {
            assert(tsv.take(ts.len() as int) =~= tsv);
        }
        Ok(out)
    }

    /// Substitutes into one trait bound: only a resolved simple-path type may
    /// replace the bound's trait path.
    pub fn substitute_type_param_bound(&self, b: &Bound) -> (r: Result<Bound, Diag>)
        ensures
            (match r {
                Ok(b2) => subst_bound_spec(self.sub_map(), b@) == Ok::<BoundV, Diag>(b2@),
                Err(e) => subst_bound_spec(self.sub_map(), b@) == Err::<BoundV, Diag>(e),
            }),
    {
        match b {
            Bound::TraitBound(p) => match self.get_path(p) {
                Some(TypeExpr::NamedPath(q, p2)) => Ok(Bound::TraitBound(p2)),
                Some(_) => Err(Diag::NonPathBoundSubstitution),
                None => Ok(Bound::TraitBound(p.dup())),
            },
            Bound::Outlives(l) => Ok(Bound::Outlives(l.clone())),
        }
    }

    /// Substitutes into every bound of a list, in order, stopping at the
    /// first failure.
    pub fn substitute_bound_vec(&self, bs: &Vec<Bound>) -> (r: Result<Vec<Bound>, Diag>)
        ensures
            (match r {
                Ok(v) => subst_bounds_spec(self.sub_map(), bounds_view(bs@)) == Ok::<
                    Seq<BoundV>,
                    Diag,
                >(bounds_view(v@)),
                Err(e) => subst_bounds_spec(self.sub_map(), bounds_view(bs@)) == Err::<
                    Seq<BoundV>,
                    Diag,
                >(e),
            }),
    {
        let ghost m = self.sub_map();
        let ghost bsv = bounds_view(bs@);
        let mut out: Vec<Bound> = Vec::new();
        let mut i: usize = 0;
        #[verifier::loop_isolation(false)]
        while i < bs.len()
            invariant
                i <= bs.len(),
                subst_bounds_spec(m, bsv.take(i as int)) == Ok::<Seq<BoundV>, Diag>(
                    bounds_view(out@),
                ),
            decreases bs.len() - i,
        {
            proof {
                assert(bsv.take(i + 1).drop_last() =~= bsv.take(i as int));
                assert(bsv.take(i + 1).last() == bsv[i as int]);
            }
            match self.substitute_type_param_bound(&bs[i]) {
                Ok(b2) => {
                    proof {
                        assert(bounds_view(out@.push(b2)) =~= bounds_view(out@).push(b2@));
                    }
                    out.push(b2);
                },
                Err(d) => {
                    proof {
                        lemma_subst_bounds_prefix_err(m, bsv, i + 1);
                    }
                    return Err(d);
                },
            }
            i += 1;
        }
        proof {
            assert(bsv.take(bs.len() as int) =~= bsv);
        }
        Ok(out)
    }

    /// Substitutes into a method signature: each value parameter's type, then
    /// the return type.
    pub fn substitute_sig(&self, s: &Sig) -> (r: Result<Sig, Diag>)
        ensures
            (match r {
                Ok(s2) => subst_sig_spec(self.sub_map(), s@) == Ok::<SigV, Diag>(s2@),
                Err(e) => subst_sig_spec(self.sub_map(), s@) == Err::<SigV, Diag>(e),
            }),
    {
        let ghost m = self.sub_map();
        let ghost psv = params_view(s.decl.params@);
        let mut ps2: Vec<Param> = Vec::new();
        let mut i: usize = 0;
        #[verifier::loop_isolation(false)]
        while i < s.decl.params.len()
            invariant
                i <= s.decl.params.len(),
                subst_params_spec(m, psv.take(i as int)) == Ok::<Seq<ParamV>, Diag>(
                    params_view(ps2@),
                ),
            decreases s.decl.params.len() - i,
        {
            proof {
                assert(psv.take(i + 1).drop_last() =~= psv.take(i as int));
                assert(psv.take(i + 1).last() == psv[i as int]);
            }
            let p = &s.decl.params[i];
            match self.substitute_type(&p.ty) {
                Ok(t2) => {
                    let p2 = Param { name: p.name.clone(), ty: t2 };
                    proof {
                        assert(params_view(ps2@.push(p2)) =~= params_view(ps2@).push(p2@));
                    }
                    ps2.push(p2);
                },
                Err(d) => {
                    proof {
                        lemma_subst_params_prefix_err(m, psv, i + 1);
                    }
                    return Err(d);
                },
            }
            i += 1;
        }
        proof {
            assert(psv.take(s.decl.params.len() as int) =~= psv);
        }
        let ret2 = match &s.decl.ret {
            Some(rt) => match self.substitute_type(rt) {
                Ok(t2) => Some(t2),
                Err(d) => {
                    return Err(d);
                },
            },
            None => None,
        };
        Ok(
            Sig {
                is_const: s.is_const,
                is_unsafe: s.is_unsafe,
                is_async: s.is_async,
                ident: s.ident.clone(),
                decl: crate::ast::FnDecl {
                    generics: s.decl.generics.dup(),
                    receiver: s.decl.receiver,
                    params: ps2,
                    ret: ret2,
                    variadic: s.decl.variadic,
                },
            },
        )
    }

    /// Applies the substitution to a whole trait declaration: every associated
    /// type must resolve to its configured concrete default (losing its
    /// bounds), and every method signature is rewritten.
    pub fn substitute_types(&self, item: &TraitDecl) -> (r: Result<TraitDecl, Diag>)
        ensures
            (match r {
                Ok(t2) => subst_trait_spec(self.sub_map(), item@) == Ok::<TraitDeclV, Diag>(t2@),
                Err(e) => subst_trait_spec(self.sub_map(), item@) == Err::<TraitDeclV, Diag>(e),
            }),
    {
        let ghost m = self.sub_map();
        let ghost itsv = titems_view(item.items@);
        let mut its2: Vec<TraitItem> = Vec::new();
        let mut i: usize = 0;
        #[verifier::loop_isolation(false)]
        while i < item.items.len()
            invariant
                i <= item.items.len(),
                subst_titems_spec(m, itsv.take(i as int)) == Ok::<Seq<TraitItemV>, Diag>(
                    titems_view(its2@),
                ),
            decreases item.items.len() - i,
        {
            proof {
                assert(itsv.take(i + 1).drop_last() =~= itsv.take(i as int));
                assert(itsv.take(i + 1).last() == itsv[i as int]);
            }
            match &item.items[i] {
                TraitItem::AssocTy { ident, bounds, default_ty } => {
                    match self.find(ident) {
                        Some(ty) => {
                            let it2 = TraitItem::AssocTy {
                                ident: ident.clone(),
                                bounds: Vec::new(),
                                default_ty: Some(ty.dup()),
                            };
                            proof {
                                assert(bounds_view(Seq::<Bound>::empty()) =~= Seq::<
                                    BoundV,
                                >::empty());
                                assert(titems_view(its2@.push(it2)) =~= titems_view(
                                    its2@,
                                ).push(titem_view(it2)));
                            }
                            its2.push(it2);
                        },
                        None => {
                            proof {
                                lemma_subst_titems_prefix_err(m, itsv, i + 1);
                            }
                            return Err(Diag::MissingAssociatedDefault);
                        },
                    }
                },
                TraitItem::Method(s) => {
                    match self.substitute_sig(s) {
                        Ok(s2) => {
                            let it2 = TraitItem::Method(s2);
                            proof {
                                assert(titems_view(its2@.push(it2)) =~= titems_view(
                                    its2@,
                                ).push(titem_view(it2)));
                            }
                            its2.push(it2);
                        },
                        Err(d) => {
                            proof {
                                lemma_subst_titems_prefix_err(m, itsv, i + 1);
                            }
                            return Err(d);
                        },
                    }
                },
            }
            i += 1;
        }
        proof {
            assert(itsv.take(item.items.len() as int) =~= itsv);
        }
        Ok(
            TraitDecl {
                vis: item.vis,
                is_unsafe: item.is_unsafe,
                ident: item.ident.clone(),
                generics: item.generics.dup(),
                items: its2,
            },
        )
    }
}

} // verus!
