//! The engine's laws: substitution is the identity on terminal types, is
//! total exactly on the type expressions free of its unsupported shapes, the
//! generic filter yields an order-preserving subsequence holding exactly the
//! referenced parameters, and trait substitution fails on any unmapped
//! associated type.

use vstd::prelude::*;
use vstd::seq_lib::group_seq_lib_default;
use crate::Diag;
use crate::generics::{filter_generics_spec, kept_pred, param_kept};
use crate::model::{
    BoundV, GenericArgV, GenericParamV, GenericsV, PathArgsV, TraitDeclV, TraitItemV, TypeV,
};
use crate::subst::{
    get_path_spec, subst_bound_spec, subst_bounds_spec, subst_titem_spec, subst_titems_spec,
    subst_trait_spec, subst_ty_spec, subst_tys_spec,
};

verus! {

// ---------------------------------------------------------------------------
// Substitution is the identity on terminal types.
// ---------------------------------------------------------------------------

/// Substituting into an inferred or never type leaves it unchanged, whatever
/// the configuration maps.
pub proof fn lemma_subst_terminal_identity(m: Map<Seq<char>, TypeV>, t: TypeV)
    requires
        t is Infer || t is Never,
    ensures
        subst_ty_spec(m, t) == Ok::<TypeV, Diag>(t),
{
}

// ---------------------------------------------------------------------------
// Substitution is total exactly on the supported type shapes.
// ---------------------------------------------------------------------------

/// Whether substituting into one bound can succeed: a trait path that
/// resolves must resolve to a simple path type.
pub open spec fn bound_substitutable(m: Map<Seq<char>, TypeV>, b: BoundV) -> bool {
    match b {
        BoundV::TraitBound(p) => match get_path_spec(m, p) {
            Some(t) => t is NamedPath,
            None => true,
        },
        BoundV::Outlives(_) => true,
    }
}

pub open spec fn bounds_substitutable(m: Map<Seq<char>, TypeV>, bs: Seq<BoundV>) -> bool {
    forall|i: int| 0 <= i < bs.len() ==> bound_substitutable(m, bs[i])
}

/// Whether substituting into a type expression can succeed: no macro-produced
/// or verbatim node, no qualified self path, and every bound of a trait
/// object or opaque return type substitutable.
pub open spec fn ty_substitutable(m: Map<Seq<char>, TypeV>, t: TypeV) -> bool
    decreases t,
{
    match t {
        TypeV::Slice(e) => ty_substitutable(m, *e),
        TypeV::Array(e, n) => ty_substitutable(m, *e),
        TypeV::RawPtr(mu, e) => ty_substitutable(m, *e),
        TypeV::Ref(lt, mu, e) => ty_substitutable(m, *e),
        TypeV::BareFn(ins, out) => tys_substitutable(m, ins) && (match out {
            Some(o) => ty_substitutable(m, *o),
            None => true,
        }),
        TypeV::Tup(ts) => tys_substitutable(m, ts),
        TypeV::NamedPath(q, p) => !q,
        TypeV::TraitObject(bs) => bounds_substitutable(m, bs),
        TypeV::OpaqueReturn(bs) => bounds_substitutable(m, bs),
        TypeV::Paren(e) => ty_substitutable(m, *e),
        TypeV::Group(e) => ty_substitutable(m, *e),
        TypeV::MacroTy => false,
        TypeV::VerbatimTy => false,
        TypeV::Infer => true,
        TypeV::Never => true,
    }
}

pub open spec fn tys_substitutable(m: Map<Seq<char>, TypeV>, ts: Seq<TypeV>) -> bool
    decreases ts,
{
    if ts.len() == 0 {
        true
    } else {
        tys_substitutable(m, ts.drop_last()) && ty_substitutable(m, ts.last())
    }
}

/// Substituting into one bound succeeds exactly when the bound is
/// substitutable.
pub proof fn lemma_subst_bound_total(m: Map<Seq<char>, TypeV>, b: BoundV)
    ensures
        subst_bound_spec(m, b) is Ok <==> bound_substitutable(m, b),
{
}

/// Substituting into a bound list succeeds exactly when every bound is
/// substitutable.
pub proof fn lemma_subst_bounds_total(m: Map<Seq<char>, TypeV>, bs: Seq<BoundV>)
    ensures
        subst_bounds_spec(m, bs) is Ok <==> bounds_substitutable(m, bs),
    decreases bs.len(),
{
    if bs.len() > 0 {
        lemma_subst_bounds_total(m, bs.drop_last());
        lemma_subst_bound_total(m, bs.last());
        assert(bounds_substitutable(m, bs.drop_last()) && bound_substitutable(m, bs.last())
            ==> bounds_substitutable(m, bs)) by {
            if bounds_substitutable(m, bs.drop_last()) && bound_substitutable(m, bs.last()) {
                assert forall|i: int| 0 <= i < bs.len() implies bound_substitutable(
                    m,
                    bs[i],
                ) by {
                    if i < bs.len() - 1 {
                        assert(bs.drop_last()[i] == bs[i]);
                    } else {
                        assert(bs.last() == bs[i]);
                    }
                }
            }
        }
        assert(bounds_substitutable(m, bs) ==> bounds_substitutable(m, bs.drop_last())) by {
            if bounds_substitutable(m, bs) {
                assert forall|i: int| 0 <= i < bs.drop_last().len() implies bound_substitutable(
                    m,
                    bs.drop_last()[i],
                ) by {
                    assert(bs.drop_last()[i] == bs[i]);
                }
            }
        }
    }
}

/// Substitution terminates with a well-formed type expression exactly on the
/// substitutable type expressions: every constructible shape except a
/// macro-produced or verbatim node, a qualified self path, and a trait bound
/// whose substitution target is not a simple path.
pub proof fn lemma_subst_total(m: Map<Seq<char>, TypeV>, t: TypeV)
    ensures
        subst_ty_spec(m, t) is Ok <==> ty_substitutable(m, t),
    decreases t,
{
    match t {
        TypeV::Slice(e) => lemma_subst_total(m, *e),
        TypeV::Array(e, n) => lemma_subst_total(m, *e),
        TypeV::RawPtr(mu, e) => lemma_subst_total(m, *e),
        TypeV::Ref(lt, mu, e) => lemma_subst_total(m, *e),
        TypeV::BareFn(ins, out) => {
            lemma_subst_tys_total(m, ins);
            match out {
                Some(o) => lemma_subst_total(m, *o),
                None => (),
            }
        },
        TypeV::Tup(ts) => lemma_subst_tys_total(m, ts),
        TypeV::TraitObject(bs) => lemma_subst_bounds_total(m, bs),
        TypeV::OpaqueReturn(bs) => lemma_subst_bounds_total(m, bs),
        TypeV::Paren(e) => lemma_subst_total(m, *e),
        TypeV::Group(e) => lemma_subst_total(m, *e),
        _ => (),
    }
}

/// Substituting into a type list succeeds exactly when every element is
/// substitutable.
pub proof fn lemma_subst_tys_total(m: Map<Seq<char>, TypeV>, ts: Seq<TypeV>)
    ensures
        subst_tys_spec(m, ts) is Ok <==> tys_substitutable(m, ts),
    decreases ts,
{
    if ts.len() > 0 {
        lemma_subst_tys_total(m, ts.drop_last());
        lemma_subst_total(m, ts.last());
    }
}

// ---------------------------------------------------------------------------
// Filter soundness.
// ---------------------------------------------------------------------------

/// `f` is a strictly increasing index map carrying `s` into `t`.
pub open spec fn embeds(f: spec_fn(int) -> int, s: Seq<GenericParamV>, t: Seq<GenericParamV>) -> bool {
    &&& forall|i: int| 0 <= i < s.len() ==> 0 <= #[trigger] f(i) < t.len() && s[i] == t[f(i)]
    &&& forall|i: int, j: int| #![trigger f(i), f(j)] 0 <= i < j < s.len() ==> f(i) < f(j)
}

/// `s` is an order-preserving subsequence of `t`: some strictly increasing
/// index map carries `s` into `t`.
pub open spec fn subsequence_of(s: Seq<GenericParamV>, t: Seq<GenericParamV>) -> bool {
    exists|f: spec_fn(int) -> int| embeds(f, s, t)
}

/// A filter by a stronger predicate is an order-preserving subsequence of a
/// filter by a weaker one.
proof fn lemma_filter_refines(
    s: Seq<GenericParamV>,
    strong: spec_fn(GenericParamV) -> bool,
    weak: spec_fn(GenericParamV) -> bool,
)
    requires
        forall|p: GenericParamV| #[trigger] strong(p) ==> weak(p),
    ensures
        subsequence_of(s.filter(strong), s.filter(weak)),
    decreases s.len(),
{
    reveal(Seq::filter);
    if s.len() == 0 {
        let f = |i: int| i;
        assert(embeds(f, s.filter(strong), s.filter(weak)));
    } else {
        lemma_filter_refines(s.drop_last(), strong, weak);
        let sub1 = s.drop_last().filter(strong);
        let sub2 = s.drop_last().filter(weak);
        let f = choose|f: spec_fn(int) -> int| embeds(f, sub1, sub2);
        let out1 = s.filter(strong);
        let out2 = s.filter(weak);
        if strong(s.last()) {
            let g = |i: int|
                if i == out1.len() - 1 {
                    out2.len() - 1
                } else {
                    f(i)
                };
            assert forall|i: int| 0 <= i < out1.len() implies 0 <= #[trigger] g(i) < out2.len()
                && out1[i] == out2[g(i)] by {
                if i < out1.len() - 1 {
                    assert(out1[i] == sub1[i]);
                    assert(out2[f(i)] == sub2[f(i)]);
                }
            }
            assert(embeds(g, out1, out2));
        } else if weak(s.last()) {
            assert(out1 == sub1);
            assert forall|i: int| 0 <= i < out1.len() implies 0 <= #[trigger] f(i) < out2.len()
                && out1[i] == out2[f(i)] by {
                assert(out2[f(i)] == sub2[f(i)]);
            }
            assert(embeds(f, out1, out2));
        } else {
            assert(out1 == sub1 && out2 == sub2);
            assert(embeds(f, out1, out2));
        }
    }
}

/// The non-const parameters of a list, in order.
pub open spec fn non_const_params(ps: Seq<GenericParamV>) -> Seq<GenericParamV> {
    ps.filter(|p: GenericParamV| !(p is ConstParam))
}

/// Filter soundness: a successful filter yields an order-preserving
/// subsequence of the input's non-const parameters, in which every parameter
/// is referenced at the use site, and which holds every referenced input
/// parameter.
pub proof fn lemma_filter_generics_sound(g: GenericsV, args: Seq<GenericArgV>, r: GenericsV)
    requires
        filter_generics_spec(g, PathArgsV::AngleBracketed(args)) == Ok::<GenericsV, Diag>(r),
    ensures
        subsequence_of(r.params, non_const_params(g.params)),
        forall|i: int|
            0 <= i < r.params.len() ==> param_kept(args, #[trigger] r.params[i]) && !(r.params[i]
                is ConstParam),
        forall|i: int|
            0 <= i < g.params.len() && param_kept(args, #[trigger] g.params[i])
                ==> r.params.contains(g.params[i]),
{
    broadcast use group_seq_lib_default;

    let pred = kept_pred(args);
    assert(r.params == g.params.filter(pred));
    lemma_filter_refines(g.params, pred, |p: GenericParamV| !(p is ConstParam));
    assert forall|i: int| 0 <= i < r.params.len() implies param_kept(
        args,
        #[trigger] r.params[i],
    ) && !(r.params[i] is ConstParam) by {
        g.params.lemma_filter_pred(pred, i);
    }
    assert forall|i: int|
        0 <= i < g.params.len() && param_kept(args, #[trigger] g.params[i]) implies r.params
        .contains(g.params[i]) by {
        g.params.lemma_filter_contains(pred, i);
    }
}

// ---------------------------------------------------------------------------
// An unmapped associated type fails trait substitution.
// ---------------------------------------------------------------------------

/// If any item of the list fails, the whole item walk fails.
pub proof fn lemma_titems_err(m: Map<Seq<char>, TypeV>, its: Seq<TraitItemV>, i: int)
    requires
        0 <= i < its.len(),
        subst_titem_spec(m, its[i]) is Err,
    ensures
        subst_titems_spec(m, its) is Err,
    decreases its.len(),
{
    if i < its.len() - 1 {
        assert(its.drop_last()[i] == its[i]);
        lemma_titems_err(m, its.drop_last(), i);
    }
}

/// Round-trip safety: a trait holding an associated type with no configured
/// substitution never substitutes successfully — the type is not silently
/// passed through.
pub proof fn lemma_unmapped_assoc_fails(m: Map<Seq<char>, TypeV>, t: TraitDeclV, i: int)
    requires
        0 <= i < t.items.len(),
        t.items[i] matches TraitItemV::AssocTy { ident, .. } && !m.contains_key(ident),
    ensures
        subst_trait_spec(m, t) is Err,
{
    lemma_titems_err(m, t.items, i);
}

} // verus!
