//! The generic parameter filter and the path resolver: keep only the
//! parameters a use site actually references, and extract a plain identifier
//! (with its arguments) from a single-segment path.

use vstd::prelude::*;
use crate::Diag;
use crate::ast::{GenericArg, GenericParam, Generics, Path, PathArgs, TypeExpr};
use crate::model::{
    gargs_view, gparams_view, group_view_lemmas, GenericArgV, GenericParamV, GenericsV,
    PathArgsV, PathV, TypeV,
};

verus! {

broadcast use group_view_lemmas;

// ---------------------------------------------------------------------------
// The meaning of the filter.
// ---------------------------------------------------------------------------

/// Whether a segment's argument list is empty: no list at all, or an
/// angle-bracketed list with nothing in it.
pub open spec fn args_is_empty_spec(a: PathArgsV) -> bool {
    match a {
        PathArgsV::Absent => true,
        PathArgsV::AngleBracketed(gs) => gs.len() == 0,
        PathArgsV::Parenthesized => false,
    }
}

/// Whether a path is exactly one plain identifier: a single segment, no
/// leading root qualifier, and no generic arguments.
pub open spec fn path_is_ident_spec(p: PathV, id: Seq<char>) -> bool {
    &&& !p.leading_colon
    &&& p.segs.len() == 1
    &&& p.segs[0].ident == id
    &&& args_is_empty_spec(p.segs[0].args)
}

/// Whether a use-site argument references the type parameter named `id`.
pub open spec fn arg_matches_tparam(a: GenericArgV, id: Seq<char>) -> bool {
    match a {
        GenericArgV::Ty(t) => match t {
            TypeV::NamedPath(q, p) => path_is_ident_spec(p, id),
            _ => false,
        },
        GenericArgV::Lt(_) => false,
    }
}

/// Whether a use-site argument is exactly the lifetime named `lt`.
pub open spec fn arg_matches_lt(a: GenericArgV, lt: Seq<char>) -> bool {
    match a {
        GenericArgV::Lt(l) => l == lt,
        GenericArgV::Ty(_) => false,
    }
}

/// Whether a parameter is referenced at the use site: a type parameter by a
/// plain-identifier type argument, a lifetime parameter by the same lifetime;
/// a const parameter never is.
pub open spec fn param_kept(args: Seq<GenericArgV>, p: GenericParamV) -> bool {
    match p {
        GenericParamV::TyParam { ident, bounds } => exists|j: int|
            0 <= j < args.len() && arg_matches_tparam(args[j], ident),
        GenericParamV::LtParam { ident, bounds } => exists|j: int|
            0 <= j < args.len() && arg_matches_lt(args[j], ident),
        GenericParamV::ConstParam { ident } => false,
    }
}

/// The keep-predicate of the filter, as one function value.
pub open spec fn kept_pred(args: Seq<GenericArgV>) -> spec_fn(GenericParamV) -> bool {
    |p: GenericParamV| param_kept(args, p)
}

/// The sentinel for "no generics at all" (as opposed to an empty bracket pair).
pub open spec fn empty_generics() -> GenericsV {
    GenericsV { bracketed: false, params: Seq::empty(), has_where_clause: false }
}

/// What the filter yields: with no use-site arguments, the sentinel; with
/// call-like arguments or a where-clause, a failure; otherwise the kept
/// parameters in input order, or the sentinel when none is kept.
pub open spec fn filter_generics_spec(g: GenericsV, a: PathArgsV) -> Result<GenericsV, Diag> {
    match a {
        PathArgsV::Absent => Ok(empty_generics()),
        PathArgsV::Parenthesized => Err(Diag::FnTraitArguments),
        PathArgsV::AngleBracketed(args) => if g.has_where_clause {
            Err(Diag::WhereClauseUnsupported)
        } else {
            let kept = g.params.filter(kept_pred(args));
            if kept.len() == 0 {
                Ok(empty_generics())
            } else {
                Ok(GenericsV { bracketed: true, params: kept, has_where_clause: false })
            }
        },
    }
}

/// What the path resolver yields: the identifier and arguments of a
/// single-segment path, or a failure on a path spanning several.
pub open spec fn find_ident_spec(p: PathV) -> Result<(Seq<char>, PathArgsV), Diag> {
    if p.segs.len() == 1 {
        Ok((p.segs[0].ident, p.segs[0].args))
    } else {
        Err(Diag::MultiSegmentPath)
    }
}

// ---------------------------------------------------------------------------
// The executable filter.
// ---------------------------------------------------------------------------

/// Whether a segment's argument list is empty.
pub fn args_is_empty(a: &PathArgs) -> (b: bool)
    ensures
        b == args_is_empty_spec(a@),
{
    match a {
        PathArgs::Absent => true,
        PathArgs::AngleBracketed(gs) => gs.len() == 0,
        PathArgs::Parenthesized => false,
    }
}

/// Whether a path is exactly the plain identifier `id`.
pub fn path_is_ident(p: &Path, id: &String) -> (b: bool)
    ensures
        b == path_is_ident_spec(p@, id@),
{
    if p.leading_colon || p.segs.len() != 1 {
        return false;
    }
    let s = &p.segs[0];
    if s.ident == *id {
        args_is_empty(&s.args)
    } else {
        false
    }
}

/// Whether some use-site argument references the parameter.
fn some_arg_matches(args: &Vec<GenericArg>, p: &GenericParam) -> (b: bool)
    ensures
        b == param_kept(gargs_view(args@), p@),
{
    let ghost argsv = gargs_view(args@);
    let mut i: usize = 0;
    #[verifier::loop_isolation(false)]
    while i < args.len()
        invariant
            i <= args.len(),
            (match p@ {
                GenericParamV::TyParam { ident, bounds } => forall|j: int|
                    0 <= j < i ==> !arg_matches_tparam(argsv[j], ident),
                GenericParamV::LtParam { ident, bounds } => forall|j: int|
                    0 <= j < i ==> !arg_matches_lt(argsv[j], ident),
                GenericParamV::ConstParam { ident } => true,
            }),
        decreases args.len() - i,
    {
        match p {
            GenericParam::TyParam { ident, bounds } => {
                match &args[i] {
                    GenericArg::Ty(TypeExpr::NamedPath(_, ap)) => {
                        if path_is_ident(ap, ident) {
                            proof {
                                assert(arg_matches_tparam(argsv[i as int], ident@));
                            }
                            return true;
                        }
                    },
                    _ => {},
                }
            },
            GenericParam::LtParam { ident, bounds } => {
                match &args[i] {
                    GenericArg::Lt(l) => {
                        if *l == *ident {
                            proof {
                                assert(arg_matches_lt(argsv[i as int], ident@));
                            }
                            return true;
                        }
                    },
                    _ => {},
                }
            },
            GenericParam::ConstParam { ident } => {
                return false;
            },
        }
        i += 1;
    }
    false
}

/// Filters a generic parameter list down to the parameters referenced by the
/// use-site arguments, preserving their order, dropping every const
/// parameter, and collapsing an empty result to the no-generics sentinel.
pub fn filter_generics(g: &Generics, path_args: &PathArgs) -> (r: Result<Generics, Diag>)
    ensures
        (match r {
            Ok(g2) => filter_generics_spec(g@, path_args@) == Ok::<GenericsV, Diag>(g2@),
            Err(e) => filter_generics_spec(g@, path_args@) == Err::<GenericsV, Diag>(e),
        }),
{
    match path_args {
        PathArgs::Absent => Ok(
            Generics { bracketed: false, params: Vec::new(), has_where_clause: false },
        ),
        PathArgs::Parenthesized => Err(Diag::FnTraitArguments),
        PathArgs::AngleBracketed(args) => {
            if g.has_where_clause {
                return Err(Diag::WhereClauseUnsupported);
            }
            let ghost argsv = gargs_view(args@);
            let ghost pred = kept_pred(argsv);
            let ghost psv = gparams_view(g.params@);
            let mut kept: Vec<GenericParam> = Vec::new();
            let mut i: usize = 0;
            #[verifier::loop_isolation(false)]
            while i < g.params.len()
                invariant
                    i <= g.params.len(),
                    gparams_view(kept@) == psv.take(i as int).filter(pred),
                decreases g.params.len() - i,
            {
                proof {
                    reveal(Seq::filter);
                    assert(psv.take(i + 1).drop_last() =~= psv.take(i as int));
                    assert(psv.take(i + 1).last() == psv[i as int]);
                }
                let keep = some_arg_matches(args, &g.params[i]);
                if keep {
                    let p2 = g.params[i].dup();
                    proof {
                        assert(gparams_view(kept@.push(p2)) =~= gparams_view(kept@).push(p2@));
                    }
                    kept.push(p2);
                }
                i += 1;
            }
            proof {
                assert(psv.take(g.params.len() as int) =~= psv);
            }
            if kept.len() == 0 {
                proof {
                    assert(gparams_view(kept@) =~= Seq::<GenericParamV>::empty());
                }
                Ok(Generics { bracketed: false, params: Vec::new(), has_where_clause: false })
            } else {
                Ok(Generics { bracketed: true, params: kept, has_where_clause: false })
            }
        },
    }
}

/// Extracts the identifier and generic arguments of a single-segment path;
/// a path spanning more than one segment fails.
pub fn find_ident_from_path(p: &Path) -> (r: Result<(String, PathArgs), Diag>)
    ensures
        (match r {
            Ok(ia) => find_ident_spec(p@) == Ok::<(Seq<char>, PathArgsV), Diag>(
                (ia.0@, ia.1@),
            ),
            Err(e) => find_ident_spec(p@) == Err::<(Seq<char>, PathArgsV), Diag>(e),
        }),
{
    if p.segs.len() == 1 {
        let s = &p.segs[0];
        Ok((s.ident.clone(), s.args.dup()))
    } else {
        Err(Diag::MultiSegmentPath)
    }
}

} // verus!
