//! Verified deep copies. Every `dup` returns a value with the same model as
//! its receiver; the substitution engine and the synthesis strategies use them
//! wherever a piece of the input is carried into the output unchanged.

use vstd::prelude::*;
use crate::ast::{
    Bound, FnDecl, GenericArg, GenericParam, Generics, Param, Path, PathArgs, PathSeg, Sig,
    TypeExpr,
};
use crate::model::{
    bounds_view, gargs_view, gparams_view, group_view_lemmas, opt_str_view, opt_ty_view,
    params_view, segs_view, strs_view, tys_view,
};

verus! {

broadcast use group_view_lemmas;

impl TypeExpr {
    /// Deep copy of a type expression.
    pub fn dup(&self) -> (r: TypeExpr)
        ensures
            r@ == self@,
        decreases *self,
    {
        match self {
            TypeExpr::Slice(e) => TypeExpr::Slice(Box::new(e.dup())),
            TypeExpr::Array(e, n) => TypeExpr::Array(Box::new(e.dup()), *n),
            TypeExpr::RawPtr(m, e) => TypeExpr::RawPtr(*m, Box::new(e.dup())),
            TypeExpr::Ref(lt, m, e) => TypeExpr::Ref(dup_opt_str(lt), *m, Box::new(e.dup())),
            TypeExpr::BareFn(ins, out) => {
                proof {
                    assert(decreases_to!(TypeExpr::BareFn(*ins, *out) => *ins));
                }
                let ins2 = dup_ty_vec(ins);
                let out2 = match out {
                    Some(o) => Some(Box::new(o.dup())),
                    None => None,
                };
                TypeExpr::BareFn(ins2, out2)
            },
            TypeExpr::Tup(ts) => {
                proof {
                    assert(decreases_to!(TypeExpr::Tup(*ts) => *ts));
                }
                TypeExpr::Tup(dup_ty_vec(ts))
            },
            TypeExpr::NamedPath(q, p) => TypeExpr::NamedPath(*q, p.dup()),
            TypeExpr::TraitObject(bs) => {
                proof {
                    assert(decreases_to!(TypeExpr::TraitObject(*bs) => *bs));
                }
                TypeExpr::TraitObject(dup_bound_vec(bs))
            },
            TypeExpr::OpaqueReturn(bs) => {
                proof {
                    assert(decreases_to!(TypeExpr::OpaqueReturn(*bs) => *bs));
                }
                TypeExpr::OpaqueReturn(dup_bound_vec(bs))
            },
            TypeExpr::Paren(e) => TypeExpr::Paren(Box::new(e.dup())),
            TypeExpr::Group(e) => TypeExpr::Group(Box::new(e.dup())),
            TypeExpr::MacroTy => TypeExpr::MacroTy,
            TypeExpr::VerbatimTy => TypeExpr::VerbatimTy,
            TypeExpr::Infer => TypeExpr::Infer,
            TypeExpr::Never => TypeExpr::Never,
        }
    }
}

/// Deep copy of a vector of type expressions.
pub fn dup_ty_vec(ts: &Vec<TypeExpr>) -> (r: Vec<TypeExpr>)
    ensures
        tys_view(r@) == tys_view(ts@),
        r@.len() == ts@.len(),
    decreases *ts,
{
    let mut out: Vec<TypeExpr> = Vec::new();
    let mut i: usize = 0;
    #[verifier::loop_isolation(false)]
    while i < ts.len()
        invariant
            i <= ts.len(),
            out@.len() == i,
            forall|j: int| 0 <= j < i ==> out@[j]@ == ts@[j]@,
        decreases ts.len() - i,
    {
        proof {
            assert(decreases_to!(*ts => ts@[i as int]));
        }
        let e = ts[i].dup();
        out.push(e);
        i += 1;
    }
    proof {
        assert(tys_view(out@) =~= tys_view(ts@));
    }
    out
}

impl Path {
    /// Deep copy of a path.
    pub fn dup(&self) -> (r: Path)
        ensures
            r@ == self@,
        decreases *self,
    {
        proof {
            assert(decreases_to!(*self => self.segs));
        }
        Path { leading_colon: self.leading_colon, segs: dup_seg_vec(&self.segs) }
    }
}

/// Deep copy of a vector of path segments.
pub fn dup_seg_vec(ss: &Vec<PathSeg>) -> (r: Vec<PathSeg>)
    ensures
        segs_view(r@) == segs_view(ss@),
        r@.len() == ss@.len(),
    decreases *ss,
{
    let mut out: Vec<PathSeg> = Vec::new();
    let mut i: usize = 0;
    #[verifier::loop_isolation(false)]
    while i < ss.len()
        invariant
            i <= ss.len(),
            out@.len() == i,
            forall|j: int| 0 <= j < i ==> out@[j]@ == ss@[j]@,
        decreases ss.len() - i,
    {
        proof {
            assert(decreases_to!(*ss => ss@[i as int]));
        }
        let e = ss[i].dup();
        out.push(e);
        i += 1;
    }
    proof {
        assert(segs_view(out@) =~= segs_view(ss@));
    }
    out
}

impl PathSeg {
    /// Deep copy of a path segment.
    pub fn dup(&self) -> (r: PathSeg)
        ensures
            r@ == self@,
        decreases *self,
    {
        proof {
            assert(decreases_to!(*self => self.args));
        }
        PathSeg { ident: self.ident.clone(), args: self.args.dup() }
    }
}

impl PathArgs {
    /// Deep copy of a segment's generic arguments.
    pub fn dup(&self) -> (r: PathArgs)
        ensures
            r@ == self@,
        decreases *self,
    {
        match self {
            PathArgs::Absent => PathArgs::Absent,
            PathArgs::AngleBracketed(gs) => {
                proof {
                    assert(decreases_to!(PathArgs::AngleBracketed(*gs) => *gs));
                }
                PathArgs::AngleBracketed(dup_garg_vec(gs))
            },
            PathArgs::Parenthesized => PathArgs::Parenthesized,
        }
    }
}

/// Deep copy of a vector of generic arguments.
pub fn dup_garg_vec(gs: &Vec<GenericArg>) -> (r: Vec<GenericArg>)
    ensures
        gargs_view(r@) == gargs_view(gs@),
        r@.len() == gs@.len(),
    decreases *gs,
{
    let mut out: Vec<GenericArg> = Vec::new();
    let mut i: usize = 0;
    #[verifier::loop_isolation(false)]
    while i < gs.len()
        invariant
            i <= gs.len(),
            out@.len() == i,
            forall|j: int| 0 <= j < i ==> out@[j]@ == gs@[j]@,
        decreases gs.len() - i,
    {
        proof {
            assert(decreases_to!(*gs => gs@[i as int]));
        }
        let e = gs[i].dup();
        out.push(e);
        i += 1;
    }
    proof {
        assert(gargs_view(out@) =~= gargs_view(gs@));
    }
    out
}

impl GenericArg {
    /// Deep copy of a generic argument.
    pub fn dup(&self) -> (r: GenericArg)
        ensures
            r@ == self@,
        decreases *self,
    {
        match self {
            GenericArg::Ty(t) => GenericArg::Ty(t.dup()),
            GenericArg::Lt(l) => GenericArg::Lt(l.clone()),
        }
    }
}

impl Bound {
    /// Deep copy of a bound.
    pub fn dup(&self) -> (r: Bound)
        ensures
            r@ == self@,
        decreases *self,
    {
        match self {
            Bound::TraitBound(p) => Bound::TraitBound(p.dup()),
            Bound::Outlives(l) => Bound::Outlives(l.clone()),
        }
    }
}

/// Deep copy of a vector of bounds.
pub fn dup_bound_vec(bs: &Vec<Bound>) -> (r: Vec<Bound>)
    ensures
        bounds_view(r@) == bounds_view(bs@),
        r@.len() == bs@.len(),
    decreases *bs,
{
    let mut out: Vec<Bound> = Vec::new();
    let mut i: usize = 0;
    #[verifier::loop_isolation(false)]
    while i < bs.len()
        invariant
            i <= bs.len(),
            out@.len() == i,
            forall|j: int| 0 <= j < i ==> out@[j]@ == bs@[j]@,
        decreases bs.len() - i,
    {
        proof {
            assert(decreases_to!(*bs => bs@[i as int]));
        }
        let e = bs[i].dup();
        out.push(e);
        i += 1;
    }
    proof {
        assert(bounds_view(out@) =~= bounds_view(bs@));
    }
    out
}

/// Copy of an optional lifetime name.
pub fn dup_opt_str(o: &Option<String>) -> (r: Option<String>)
    ensures
        opt_str_view(r) == opt_str_view(*o),
{
    match o {
        Some(s) => Some(s.clone()),
        None => None,
    }
}

/// Deep copy of an optional type expression.
pub fn dup_opt_ty(o: &Option<TypeExpr>) -> (r: Option<TypeExpr>)
    ensures
        opt_ty_view(r) == opt_ty_view(*o),
{
    match o {
        Some(t) => Some(t.dup()),
        None => None,
    }
}

/// Copy of a vector of identifiers.
pub fn dup_str_vec(ss: &Vec<String>) -> (r: Vec<String>)
    ensures
        strs_view(r@) == strs_view(ss@),
        r@.len() == ss@.len(),
{
    let mut out: Vec<String> = Vec::new();
    let mut i: usize = 0;
    #[verifier::loop_isolation(false)]
    while i < ss.len()
        invariant
            i <= ss.len(),
            out@.len() == i,
            forall|j: int| 0 <= j < i ==> out@[j]@ == ss@[j]@,
        decreases ss.len() - i,
    {
        let e = ss[i].clone();
        out.push(e);
        i += 1;
    }
    proof {
        assert(strs_view(out@) =~= strs_view(ss@));
    }
    out
}

impl GenericParam {
    /// Deep copy of a generic parameter.
    pub fn dup(&self) -> (r: GenericParam)
        ensures
            r@ == self@,
    {
        match self {
            GenericParam::TyParam { ident, bounds } => GenericParam::TyParam {
                ident: ident.clone(),
                bounds: dup_bound_vec(bounds),
            },
            GenericParam::LtParam { ident, bounds } => GenericParam::LtParam {
                ident: ident.clone(),
                bounds: dup_str_vec(bounds),
            },
            GenericParam::ConstParam { ident } => GenericParam::ConstParam {
                ident: ident.clone(),
            },
        }
    }
}

/// Deep copy of a vector of generic parameters.
pub fn dup_gparam_vec(ps: &Vec<GenericParam>) -> (r: Vec<GenericParam>)
    ensures
        gparams_view(r@) == gparams_view(ps@),
        r@.len() == ps@.len(),
{
    let mut out: Vec<GenericParam> = Vec::new();
    let mut i: usize = 0;
    #[verifier::loop_isolation(false)]
    while i < ps.len()
        invariant
            i <= ps.len(),
            out@.len() == i,
            forall|j: int| 0 <= j < i ==> out@[j]@ == ps@[j]@,
        decreases ps.len() - i,
    {
        let e = ps[i].dup();
        out.push(e);
        i += 1;
    }
    proof {
        assert(gparams_view(out@) =~= gparams_view(ps@));
    }
    out
}

impl Generics {
    /// Deep copy of a generic parameter list.
    pub fn dup(&self) -> (r: Generics)
        ensures
            r@ == self@,
    {
        Generics {
            bracketed: self.bracketed,
            params: dup_gparam_vec(&self.params),
            has_where_clause: self.has_where_clause,
        }
    }
}

impl Param {
    /// Deep copy of a value parameter.
    pub fn dup(&self) -> (r: Param)
        ensures
            r@ == self@,
    {
        Param { name: self.name.clone(), ty: self.ty.dup() }
    }
}

/// Deep copy of a vector of value parameters.
pub fn dup_param_vec(ps: &Vec<Param>) -> (r: Vec<Param>)
    ensures
        params_view(r@) == params_view(ps@),
        r@.len() == ps@.len(),
{
    let mut out: Vec<Param> = Vec::new();
    let mut i: usize = 0;
    #[verifier::loop_isolation(false)]
    while i < ps.len()
        invariant
            i <= ps.len(),
            out@.len() == i,
            forall|j: int| 0 <= j < i ==> out@[j]@ == ps@[j]@,
        decreases ps.len() - i,
    {
        let e = ps[i].dup();
        out.push(e);
        i += 1;
    }
    proof {
        assert(params_view(out@) =~= params_view(ps@));
    }
    out
}

impl FnDecl {
    /// Deep copy of a function declaration.
    pub fn dup(&self) -> (r: FnDecl)
        ensures
            r@ == self@,
    {
        FnDecl {
            generics: self.generics.dup(),
            receiver: self.receiver,
            params: dup_param_vec(&self.params),
            ret: dup_opt_ty(&self.ret),
            variadic: self.variadic,
        }
    }
}

impl Sig {
    /// Deep copy of a signature.
    pub fn dup(&self) -> (r: Sig)
        ensures
            r@ == self@,
    {
        Sig {
            is_const: self.is_const,
            is_unsafe: self.is_unsafe,
            is_async: self.is_async,
            ident: self.ident.clone(),
            decl: self.decl.dup(),
        }
    }
}

} // verus!
