//! The attribute parser: turns the flat sequence of configuration directives
//! into an immutable [`Config`], and gives the configuration its mathematical
//! meaning as a map from associated-type identifiers to concrete types.

use vstd::prelude::*;
use crate::Diag;
use crate::ast::{Config, Directive, Subst, TypeExpr};
use crate::model::{
    config_view, directives_view, group_view_lemmas, subst_view, substs_view, ConfigV,
    DirectiveV, SubstV, TypeV,
};

verus! {

broadcast use group_view_lemmas;

/// The meaning of the substitution list: a map from identifier to concrete
/// type, where a later directive for the same identifier wins.
pub open spec fn cfg_map(ss: Seq<SubstV>) -> Map<Seq<char>, TypeV>
    decreases ss,
{
    if ss.len() == 0 {
        Map::empty()
    } else {
        cfg_map(ss.drop_last()).insert(ss.last().key, ss.last().ty)
    }
}

/// If position `i` holds the last directive for key `k`, the map holds its type.
pub proof fn lemma_cfg_map_found(ss: Seq<SubstV>, i: int)
    requires
        0 <= i < ss.len(),
        forall|j: int| i < j < ss.len() ==> ss[j].key != ss[i].key,
    ensures
        cfg_map(ss).contains_key(ss[i].key),
        cfg_map(ss)[ss[i].key] == ss[i].ty,
    decreases ss.len(),
{
    if i < ss.len() - 1 {
        lemma_cfg_map_found(ss.drop_last(), i);
    }
}

/// If no directive mentions key `k`, the map has no entry for it.
pub proof fn lemma_cfg_map_absent(ss: Seq<SubstV>, k: Seq<char>)
    requires
        forall|j: int| 0 <= j < ss.len() ==> ss[j].key != k,
    ensures
        !cfg_map(ss).contains_key(k),
    decreases ss.len(),
{
    if ss.len() > 0 {
        lemma_cfg_map_absent(ss.drop_last(), k);
    }
}

/// What parsing a directive sequence yields: the configuration built left to
/// right, stopped at the first ill-formed directive.
pub open spec fn parse_directives_spec(ds: Seq<DirectiveV>) -> Result<ConfigV, Diag>
    decreases ds,
{
    if ds.len() == 0 {
        Ok(ConfigV { subs: Seq::empty(), modname: None })
    } else {
        match parse_directives_spec(ds.drop_last()) {
            Err(e) => Err(e),
            Ok(c) => match ds.last() {
                DirectiveV::ModDirective { ident, has_body } => if has_body {
                    Err(Diag::ModDirectiveWithBody)
                } else {
                    Ok(ConfigV { subs: c.subs, modname: Some(ident) })
                },
                DirectiveV::TypeDirective { ident, default_ty } => match default_ty {
                    Some(t) => Ok(
                        ConfigV {
                            subs: c.subs.push(SubstV { key: ident, ty: t }),
                            modname: c.modname,
                        },
                    ),
                    None => Err(Diag::TypeDirectiveWithoutDefault),
                },
                DirectiveV::UnknownDirective => Err(Diag::BadDirective),
            },
        }
    }
}

/// A parse that failed on some prefix fails the same way on the whole input.
pub proof fn lemma_parse_directives_prefix_err(ds: Seq<DirectiveV>, i: int)
    requires
        0 <= i <= ds.len(),
        parse_directives_spec(ds.take(i)) is Err,
    ensures
        parse_directives_spec(ds) == parse_directives_spec(ds.take(i)),
    decreases ds.len(),
{
    if i == ds.len() {
        assert(ds.take(i) =~= ds);
    } else {
        assert(ds.drop_last().take(i) =~= ds.take(i));
        lemma_parse_directives_prefix_err(ds.drop_last(), i);
    }
}

impl Config {
    /// The configuration's substitution mapping.
    pub open spec fn sub_map(&self) -> Map<Seq<char>, TypeV> {
        cfg_map(config_view(*self).subs)
    }

    /// Parses the directive sequence of the attribute into a configuration.
    /// Fails on a module-rename directive that carries a body, on a
    /// type-substitution directive without a concrete right-hand side, and on
    /// any unrecognized directive shape.
    pub fn from_directives(ds: &Vec<Directive>) -> (r: Result<Config, Diag>)
        ensures
            (match r {
                Ok(c) => parse_directives_spec(directives_view(ds@)) == Ok::<ConfigV, Diag>(c@),
                Err(e) => parse_directives_spec(directives_view(ds@)) == Err::<ConfigV, Diag>(e),
            }),
    {
        let ghost dsv = directives_view(ds@);
        let mut subs: Vec<Subst> = Vec::new();
        let mut modname: Option<String> = None;
        let mut i: usize = 0;
        #[verifier::loop_isolation(false)]
        while i < ds.len()
            invariant
                i <= ds.len(),
                parse_directives_spec(dsv.take(i as int)) == Ok::<ConfigV, Diag>(
                    ConfigV {
                        subs: substs_view(subs@),
                        modname: match modname {
                            Some(s) => Some(s@),
                            None => None,
                        },
                    },
                ),
            decreases ds.len() - i,
        {
            proof {
                assert(dsv.take(i + 1).drop_last() =~= dsv.take(i as int));
                assert(dsv.take(i + 1).last() == directive_view_of(ds, i as int));
            }
            match &ds[i] {
                Directive::ModDirective { ident, has_body } => {
                    if *has_body {
                        proof {
                            lemma_parse_directives_prefix_err(dsv, i + 1);
                        }
                        return Err(Diag::ModDirectiveWithBody);
                    }
                    modname = Some(ident.clone());
                },
                Directive::TypeDirective { ident, default_ty } => {
                    match default_ty {
                        Some(t) => {
                            let s = Subst { key: ident.clone(), ty: t.dup() };
                            proof {
                                assert(substs_view(subs@.push(s)) =~= substs_view(subs@).push(
                                    subst_view(s),
                                ));
                            }
                            subs.push(s);
                        },
                        None => {
                            proof {
                                lemma_parse_directives_prefix_err(dsv, i + 1);
                            }
                            return Err(Diag::TypeDirectiveWithoutDefault);
                        },
                    }
                },
                Directive::UnknownDirective => {
                    proof {
                        lemma_parse_directives_prefix_err(dsv, i + 1);
                    }
                    return Err(Diag::BadDirective);
                },
            }
            i += 1;
        }
        proof {
            assert(dsv.take(ds.len() as int) =~= dsv);
        }
        Ok(Config { subs, modname })
    }

    /// Looks an identifier up in the substitution mapping; the last directive
    /// for the identifier wins, as in the parsed map.
    pub fn find(&self, name: &String) -> (r: Option<&TypeExpr>)
        ensures
            (match r {
                Some(t) => self.sub_map().contains_key(name@) && self.sub_map()[name@] == t@,
                None => !self.sub_map().contains_key(name@),
            }),
    {
        let ghost ssv = config_view(*self).subs;
        let mut i: usize = self.subs.len();
        #[verifier::loop_isolation(false)]
        while i > 0
            invariant
                i <= self.subs.len(),
                forall|j: int| i <= j < ssv.len() ==> ssv[j].key != name@,
            decreases i,
        {
            i -= 1;
            let s = &self.subs[i];
            if s.key == *name {
                proof {
                    lemma_cfg_map_found(ssv, i as int);
                }
                return Some(&s.ty);
            }
        }
        proof {
            lemma_cfg_map_absent(ssv, name@);
        }
        None
    }
}

/// The view of one directive of a vector, used to phrase loop steps.
pub open spec fn directive_view_of(ds: &Vec<Directive>, i: int) -> DirectiveV {
    crate::model::directive_view(ds@[i])
}

} // verus!
