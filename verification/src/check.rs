use vstd::prelude::*;
use crate::base::{DtKind, Fatal, SyntaxInfo, TCE, DBI};
use crate::abs::{abs_info_spec, abs_size, Abs};
use crate::eval::{eval_at, evaluate_spec};
use crate::state::{
    metas_evolve, pop_local_spec, push_local_spec, solve_meta_spec, MetaSolution, StateV, TCS,
};
use crate::val::{lift_spec, val_eq, val_eq_spec, Neutral, Val, ValInfo};

verus! {

/// The relation between the state a checking judgment receives and the one
/// it hands back: the global contexts are untouched, the local contexts are
/// restored to what they were (every binder entered was left again), and the
/// meta store has only grown or solved slots.
pub open spec fn judgment_keeps(a: TCS, b: TCS) -> bool {
    &&& b.gamma@ == a.gamma@
    &&& b.env@ == a.env@
    &&& b.local_gamma@ == a.local_gamma@
    &&& b.local_env@ == a.local_env@
    &&& metas_evolve(a.meta_context@, b.meta_context@)
}

/// What conversion does with a meta reference on one side: an unsolved slot
/// receives the other side as its solution, a solved slot must agree with
/// it, and an inlined or unregistered slot is an internal failure.
pub open spec fn unify_meta_spec(
    s: StateV,
    mi: crate::base::MI,
    other: Val,
    span: SyntaxInfo,
) -> Result<StateV, TCE> {
    if mi.0 < s.metas.len() {
        match s.metas[mi.0 as int] {
            MetaSolution::Unsolved => Ok(solve_meta_spec(s, mi, other)),
            MetaSolution::Solved(sol) => if val_eq_spec(*sol, other) {
                Ok(s)
            } else {
                Err(TCE::Mismatch(span))
            },
            MetaSolution::Inlined => Err(TCE::Internal(Fatal::MetaInlined)),
        }
    } else {
        Err(TCE::Internal(Fatal::MetaOut))
    }
}

/// What conversion returns: equal values convert as they stand; otherwise a
/// meta reference on either side (the left one first) is solved with or
/// compared against the other side; anything else is a mismatch at the
/// given span.
pub open spec fn unify_spec(s: StateV, a: Val, b: Val, span: SyntaxInfo) -> Result<StateV, TCE> {
    if val_eq_spec(a, b) {
        Ok(s)
    } else {
        match a {
            Val::Neut(Neutral::Meta(mi)) => unify_meta_spec(s, mi, b, span),
            _ => match b {
                Val::Neut(Neutral::Meta(mi)) => unify_meta_spec(s, mi, a, span),
                _ => Err(TCE::Mismatch(span)),
            },
        }
    }
}

/// Conversion: decides whether two values are equal, solving a meta when one
/// side is an unsolved meta reference. The policy is deliberately
/// conservative: beyond single-meta solving it falls back to structural
/// equality of the values as the evaluator produced them.
pub fn unify(tcs: TCS, a: &Val, b: &Val, span: SyntaxInfo) -> (r: Result<TCS, TCE>)
    ensures
        match (r, unify_spec(tcs@, *a, *b, span)) {
            (Ok(t2), Ok(sv)) => t2@ == sv,
            (Err(e1), Err(e2)) => e1 == e2,
            _ => false,
        },
        val_eq_spec(*a, *b) ==> r == Ok::<TCS, TCE>(tcs),
        r matches Ok(t2) ==> judgment_keeps(tcs, t2),
{
    if val_eq(a, b) {
        return Ok(tcs);
    }
    match a {
        Val::Neut(Neutral::Meta(mi)) => {
            if mi.0 < tcs.meta_context.len() {
                let slot = tcs.meta_solution(*mi).clone();
                match slot {
                    MetaSolution::Unsolved => {
                        let mut tcs = tcs;
                        tcs.solve_meta(*mi, b.clone());
                        return Ok(tcs);
                    },
                    MetaSolution::Solved(sol) => {
                        if val_eq(&*sol, b) {
                            return Ok(tcs);
                        } else {
                            return Err(TCE::Mismatch(span));
                        }
                    },
                    MetaSolution::Inlined => {
                        return Err(TCE::Internal(Fatal::MetaInlined));
                    },
                }
            } else {
                return Err(TCE::Internal(Fatal::MetaOut));
            }
        },
        _ => {},
    }
    match b {
        Val::Neut(Neutral::Meta(mi)) => {
            if mi.0 < tcs.meta_context.len() {
                let slot = tcs.meta_solution(*mi).clone();
                match slot {
                    MetaSolution::Unsolved => {
                        let mut tcs = tcs;
                        tcs.solve_meta(*mi, a.clone());
                        return Ok(tcs);
                    },
                    MetaSolution::Solved(sol) => {
                        if val_eq(&*sol, a) {
                            return Ok(tcs);
                        } else {
                            return Err(TCE::Mismatch(span));
                        }
                    },
                    MetaSolution::Inlined => {
                        return Err(TCE::Internal(Fatal::MetaInlined));
                    },
                }
            } else {
                return Err(TCE::Internal(Fatal::MetaOut));
            }
        },
        _ => {},
    }
    Err(TCE::Mismatch(span))
}

/// What type synthesis returns on each form: exact types for the leaves, the
/// codomain of the function's Pi type for an application (the argument
/// checked against its domain), the joined universe of the two sides of a
/// dependent type (the return side under a pushed binder), the components of
/// a Sigma type for projections, the lifted type for a lift, and failure for
/// every form without a principal type.
pub open spec fn infer_spec(s: StateV, abs: Abs) -> Result<(ValInfo, StateV), TCE>
    decreases abs_size(abs), 0int,
{
    match abs {
        Abs::Type(info, level) => if level < usize::MAX {
            Ok((ValInfo { ast: Val::Type((level + 1) as usize), info }, s))
        } else {
            Err(TCE::Internal(Fatal::LevelOverflow))
        },
        Abs::Bot(info) => Ok((ValInfo { ast: Val::Type(0), info }, s)),
        Abs::Var(id, _, i) => if i.0 < s.local_gamma.len() {
            Ok(
                (
                    ValInfo { ast: s.local_gamma[s.local_gamma.len() - 1 - i.0].ast, info: id.info },
                    s,
                ),
            )
        } else {
            Err(TCE::Internal(Fatal::LocalOut))
        },
        Abs::Ref(id, gi) => if gi.0 < s.gamma.len() {
            Ok((ValInfo { ast: s.gamma[gi.0 as int].ast, info: id.info }, s))
        } else {
            Err(TCE::Internal(Fatal::GlobOut))
        },
        Abs::Meta(id, _) => Err(TCE::CannotInfer(id.info)),
        Abs::Cons(id) => Err(TCE::CannotInfer(id.info)),
        Abs::Lam(info, _, _, _) => Err(TCE::CannotInfer(info)),
        Abs::Pair(info, _, _) => Err(TCE::CannotInfer(info)),
        Abs::Sum(info, _) => Err(TCE::NotImplemented(info)),
        Abs::App(info, f, a) => match infer_spec(s, *f) {
            Ok((f_ty, s1)) => match f_ty.ast {
                Val::Dt(DtKind::Pi, param, ret) => match check_spec(s1, *a, *param) {
                    Ok((_, s2)) => Ok((ValInfo { ast: *ret, info }, s2)),
                    Err(e) => Err(e),
                },
                _ => Err(TCE::NotPi(info)),
            },
            Err(e) => Err(e),
        },
        Abs::Dt(info, _, _, param, ret) => match infer_spec(s, *param) {
            Ok((param_ty, s1)) => match param_ty.ast {
                Val::Type(l1) => match evaluate_spec(s1, *param) {
                    Ok(param_val) => {
                        let s2 = push_local_spec(
                            s1,
                            param_val,
                            ValInfo {
                                ast: Val::Neut(Neutral::Gen(Some(DBI(0)))),
                                info: param_val.info,
                            },
                        );
                        match infer_spec(s2, *ret) {
                            Ok((ret_ty, s3)) => match ret_ty.ast {
                                Val::Type(l2) => Ok(
                                    (
                                        ValInfo {
                                            ast: Val::Type(
                                                if l1 < l2 {
                                                    l2
                                                } else {
                                                    l1
                                                },
                                            ),
                                            info,
                                        },
                                        pop_local_spec(s3),
                                    ),
                                ),
                                _ => Err(TCE::NotUniverse(info)),
                            },
                            Err(e) => Err(e),
                        }
                    },
                    Err(e) => Err(e),
                },
                _ => Err(TCE::NotUniverse(info)),
            },
            Err(e) => Err(e),
        },
        Abs::Fst(info, p) => match infer_spec(s, *p) {
            Ok((p_ty, s1)) => match p_ty.ast {
                Val::Dt(DtKind::Sigma, first_ty, _) => Ok((ValInfo { ast: *first_ty, info }, s1)),
                _ => Err(TCE::NotSigma(info)),
            },
            Err(e) => Err(e),
        },
        Abs::Snd(info, p) => match infer_spec(s, *p) {
            Ok((p_ty, s1)) => match p_ty.ast {
                Val::Dt(DtKind::Sigma, _, second_ty) => Ok((ValInfo { ast: *second_ty, info }, s1)),
                _ => Err(TCE::NotSigma(info)),
            },
            Err(e) => Err(e),
        },
        Abs::Lift(info, levels, e) => match infer_spec(s, *e) {
            Ok((e_ty, s1)) => match lift_spec(e_ty.ast, levels as nat) {
                Ok(lifted) => Ok((ValInfo { ast: lifted, info }, s1)),
                Err(f) => Err(TCE::Internal(f)),
            },
            Err(e) => Err(e),
        },
    }
}

/// What checking against an expected type returns: a function literal
/// against a Pi type yields the function value of its body checked under
/// the pushed binder, a pair against a Sigma type the pair of its checked
/// components, a meta placeholder stands as it is, and every other form is
/// inferred, converted against the expectation, and evaluated.
pub open spec fn check_spec(s: StateV, abs: Abs, expected: Val) -> Result<(ValInfo, StateV), TCE>
    decreases abs_size(abs), 1int,
{
    match abs {
        Abs::Lam(info, _, _, body) => match expected {
            Val::Dt(DtKind::Pi, param, ret) => {
                let s1 = push_local_spec(
                    s,
                    ValInfo { ast: *param, info },
                    ValInfo { ast: Val::Neut(Neutral::Gen(Some(DBI(0)))), info },
                );
                match check_spec(s1, *body, *ret) {
                    Ok((body_val, s2)) => Ok(
                        (
                            ValInfo { ast: Val::Lam(Box::new(body_val.ast)), info },
                            pop_local_spec(s2),
                        ),
                    ),
                    Err(e) => Err(e),
                }
            },
            _ => Err(TCE::Mismatch(info)),
        },
        Abs::Pair(info, a, b) => match expected {
            Val::Dt(DtKind::Sigma, first_ty, second_ty) => match check_spec(s, *a, *first_ty) {
                Ok((a_val, s1)) => match check_spec(s1, *b, *second_ty) {
                    Ok((b_val, s2)) => Ok(
                        (
                            ValInfo {
                                ast: Val::Pair(Box::new(a_val.ast), Box::new(b_val.ast)),
                                info,
                            },
                            s2,
                        ),
                    ),
                    Err(e) => Err(e),
                },
                Err(e) => Err(e),
            },
            _ => Err(TCE::Mismatch(info)),
        },
        Abs::Meta(id, mi) => Ok((ValInfo { ast: Val::Neut(Neutral::Meta(mi)), info: id.info }, s)),
        _ => match infer_spec(s, abs) {
            Ok((inferred, s1)) => match unify_spec(s1, inferred.ast, expected, abs_info_spec(abs)) {
                Ok(s2) => match evaluate_spec(s2, abs) {
                    Ok(v) => Ok((v, s2)),
                    Err(e) => Err(e),
                },
                Err(e) => Err(e),
            },
            Err(e) => Err(e),
        },
    }
}

/// What universe checking returns: the evaluated form of the expression when
/// its inferred type is a universe, and a universe-check failure otherwise.
pub open spec fn check_type_spec(s: StateV, abs: Abs) -> Result<(ValInfo, StateV), TCE> {
    match infer_spec(s, abs) {
        Ok((inferred, s1)) => match inferred.ast {
            Val::Type(_) => match evaluate_spec(s1, abs) {
                Ok(v) => Ok((v, s1)),
                Err(e) => Err(e),
            },
            _ => Err(TCE::NotUniverse(abs_info_spec(abs))),
        },
        Err(e) => Err(e),
    }
}

/// Synthesizes a principal type for a piece of abstract syntax with no
/// expected type, or fails if none exists: an unannotated function literal,
/// pair or constructor cannot be inferred. The global contexts are read,
/// never written; binders entered along the way are left again.
pub fn infer(tcs: TCS, abs: &Abs) -> (r: Result<(ValInfo, TCS), TCE>)
    ensures
        match (r, infer_spec(tcs@, *abs)) {
            (Ok(p), Ok(q)) => p.0 == q.0 && p.1@ == q.1,
            (Err(e1), Err(e2)) => e1 == e2,
            _ => false,
        },
        r matches Ok(p) ==> judgment_keeps(tcs, p.1),
    decreases abs_size(*abs), 0int,
{
    match abs {
        Abs::Type(info, level) => match level.checked_add(1) {
            Some(up) => Ok((Val::Type(up).into_info(*info), tcs)),
            None => Err(TCE::Internal(Fatal::LevelOverflow)),
        },
        Abs::Bot(info) => Ok((Val::Type(0).into_info(*info), tcs)),
        Abs::Var(ident, _, i) => if i.0 < tcs.local_gamma.len() {
            let ty = tcs.local_type(*i).ast.clone();
            Ok((ty.into_info(ident.info), tcs))
        } else {
            Err(TCE::Internal(Fatal::LocalOut))
        },
        Abs::Ref(ident, gi) => if gi.0 < tcs.gamma.len() {
            let ty = tcs.glob_type(*gi).ast.clone();
            Ok((ty.into_info(ident.info), tcs))
        } else {
            Err(TCE::Internal(Fatal::GlobOut))
        },
        Abs::Meta(ident, _) => Err(TCE::CannotInfer(ident.info)),
        Abs::Cons(ident) => Err(TCE::CannotInfer(ident.info)),
        Abs::Lam(info, _, _, _) => Err(TCE::CannotInfer(*info)),
        Abs::Pair(info, _, _) => Err(TCE::CannotInfer(*info)),
        Abs::Sum(info, _) => Err(TCE::NotImplemented(*info)),
        Abs::App(info, f, a) => {
            let (f_ty, tcs) = match infer(tcs, f) {
                Ok(p) => p,
                Err(e) => {
                    return Err(e);
                },
            };
            match f_ty.ast {
                Val::Dt(DtKind::Pi, param, ret) => {
                    let (_, tcs) = match check(tcs, a, &param) {
                        Ok(p) => p,
                        Err(e) => {
                            return Err(e);
                        },
                    };
                    Ok(((*ret).into_info(*info), tcs))
                },
                _ => Err(TCE::NotPi(*info)),
            }
        },
        Abs::Dt(info, _, _, param, ret) => {
            let ghost lg0 = tcs.local_gamma@;
            let ghost le0 = tcs.local_env@;
            let ghost m0 = tcs.meta_context@;
            let (param_ty, tcs) = match infer(tcs, param) {
                Ok(p) => p,
                Err(e) => {
                    return Err(e);
                },
            };
            let l1 = match param_ty.ast {
                Val::Type(l) => l,
                _ => {
                    return Err(TCE::NotUniverse(*info));
                },
            };
            let param_val = match eval_at(&tcs, param) {
                Ok(v) => v,
                Err(e) => {
                    return Err(e);
                },
            };
            let mut tcs = tcs;
            let param_info = param_val.info;
            tcs.push_local(param_val, Val::var(DBI(0)).into_info(param_info));
            let ghost m1 = tcs.meta_context@;
            let (ret_ty, tcs) = match infer(tcs, ret) {
                Ok(p) => p,
                Err(e) => {
                    return Err(e);
                },
            };
            let l2 = match ret_ty.ast {
                Val::Type(l) => l,
                _ => {
                    return Err(TCE::NotUniverse(*info));
                },
            };
            let mut tcs = tcs;
            tcs.pop_local();
            proof {
                assert(tcs.local_gamma@ =~= lg0);
                assert(tcs.local_env@ =~= le0);
                crate::state::lemma_metas_evolve_trans(m0, m1, tcs.meta_context@);
            }
            let l = if l1 < l2 {
                l2
            } else {
                l1
            };
            Ok((Val::Type(l).into_info(*info), tcs))
        },
        Abs::Fst(info, p) => {
            let (p_ty, tcs) = match infer(tcs, p) {
                Ok(pr) => pr,
                Err(e) => {
                    return Err(e);
                },
            };
            match p_ty.ast {
                Val::Dt(DtKind::Sigma, first_ty, _) => Ok(((*first_ty).into_info(*info), tcs)),
                _ => Err(TCE::NotSigma(*info)),
            }
        },
        Abs::Snd(info, p) => {
            let (p_ty, tcs) = match infer(tcs, p) {
                Ok(pr) => pr,
                Err(e) => {
                    return Err(e);
                },
            };
            match p_ty.ast {
                Val::Dt(DtKind::Sigma, _, second_ty) => Ok(((*second_ty).into_info(*info), tcs)),
                _ => Err(TCE::NotSigma(*info)),
            }
        },
        Abs::Lift(info, levels, e) => {
            let (e_ty, tcs) = match infer(tcs, e) {
                Ok(p) => p,
                Err(e) => {
                    return Err(e);
                },
            };
            match e_ty.ast.lift(*levels as usize) {
                Ok(lifted) => Ok((lifted.into_info(*info), tcs)),
                Err(f) => Err(TCE::Internal(f)),
            }
        },
    }
}

/// Checks a piece of abstract syntax against a pushed-down expected type and
/// returns its value: a function literal is taken apart against a Pi type
/// with its binder pushed and popped around the body, a pair against a Sigma
/// type, a meta placeholder is accepted as it stands, and anything else is
/// inferred and converted. The return type of a Pi is used as it stands: the
/// evaluator does not enter binders.
pub fn check(tcs: TCS, abs: &Abs, expected: &Val) -> (r: Result<(ValInfo, TCS), TCE>)
    ensures
        match (r, check_spec(tcs@, *abs, *expected)) {
            (Ok(p), Ok(q)) => p.0 == q.0 && p.1@ == q.1,
            (Err(e1), Err(e2)) => e1 == e2,
            _ => false,
        },
        r matches Ok(p) ==> judgment_keeps(tcs, p.1),
    decreases abs_size(*abs), 1int,
{
    match abs {
        Abs::Lam(info, _, _, body) => match expected {
            Val::Dt(DtKind::Pi, param, ret) => {
                let ghost lg0 = tcs.local_gamma@;
                let ghost le0 = tcs.local_env@;
                let ghost m0 = tcs.meta_context@;
                let mut tcs = tcs;
                tcs.push_local(
                    (**param).clone().into_info(*info),
                    Val::var(DBI(0)).into_info(*info),
                );
                let (body_val, tcs) = match check(tcs, body, ret) {
                    Ok(p) => p,
                    Err(e) => {
                        return Err(e);
                    },
                };
                let mut tcs = tcs;
                tcs.pop_local();
                proof {
                    assert(tcs.local_gamma@ =~= lg0);
                    assert(tcs.local_env@ =~= le0);
                    crate::state::lemma_metas_evolve_refl(m0);
                }
                Ok((Val::lam(body_val.ast).into_info(*info), tcs))
            },
            _ => Err(TCE::Mismatch(*info)),
        },
        Abs::Pair(info, a, b) => match expected {
            Val::Dt(DtKind::Sigma, first_ty, second_ty) => {
                let (a_val, tcs) = match check(tcs, a, first_ty) {
                    Ok(p) => p,
                    Err(e) => {
                        return Err(e);
                    },
                };
                let (b_val, tcs) = match check(tcs, b, second_ty) {
                    Ok(p) => p,
                    Err(e) => {
                        return Err(e);
                    },
                };
                Ok((Val::pair(a_val.ast, b_val.ast).into_info(*info), tcs))
            },
            _ => Err(TCE::Mismatch(*info)),
        },
        Abs::Meta(ident, mi) => Ok((Val::meta(*mi).into_info(ident.info), tcs)),
        _ => {
            let (inferred, tcs) = match infer(tcs, abs) {
                Ok(p) => p,
                Err(e) => {
                    return Err(e);
                },
            };
            let span = abs.syntax_info();
            let tcs = match unify(tcs, &inferred.ast, expected, span) {
                Ok(t) => t,
                Err(e) => {
                    return Err(e);
                },
            };
            match eval_at(&tcs, abs) {
                Ok(v) => Ok((v, tcs)),
                Err(e) => Err(e),
            }
        },
    }
}

/// Validates that the expression inhabits some universe and returns its
/// evaluated form: the semantic type it denotes.
pub fn check_type(tcs: TCS, abs: &Abs) -> (r: Result<(ValInfo, TCS), TCE>)
    ensures
        match (r, check_type_spec(tcs@, *abs)) {
            (Ok(p), Ok(q)) => p.0 == q.0 && p.1@ == q.1,
            (Err(e1), Err(e2)) => e1 == e2,
            _ => false,
        },
        r matches Ok(p) ==> judgment_keeps(tcs, p.1),
{
    let (inferred, tcs) = match infer(tcs, abs) {
        Ok(p) => p,
        Err(e) => {
            return Err(e);
        },
    };
    match inferred.ast {
        Val::Type(_) => {},
        _ => {
            return Err(TCE::NotUniverse(abs.syntax_info()));
        },
    }
    match eval_at(&tcs, abs) {
        Ok(v) => Ok((v, tcs)),
        Err(e) => Err(e),
    }
}

impl TCS {
    /// Type synthesis as a method, threading the state by value.
    pub fn infer(self, abs: &Abs) -> (r: Result<(ValInfo, TCS), TCE>)
        ensures
            match (r, infer_spec(self@, *abs)) {
                (Ok(p), Ok(q)) => p.0 == q.0 && p.1@ == q.1,
                (Err(e1), Err(e2)) => e1 == e2,
                _ => false,
            },
            r matches Ok(p) ==> judgment_keeps(self, p.1),
    {
        infer(self, abs)
    }

    /// Checking against an expected type as a method.
    pub fn check(self, abs: &Abs, expected: &Val) -> (r: Result<(ValInfo, TCS), TCE>)
        ensures
            match (r, check_spec(self@, *abs, *expected)) {
                (Ok(p), Ok(q)) => p.0 == q.0 && p.1@ == q.1,
                (Err(e1), Err(e2)) => e1 == e2,
                _ => false,
            },
            r matches Ok(p) ==> judgment_keeps(self, p.1),
    {
        check(self, abs, expected)
    }

    /// Universe checking as a method.
    pub fn check_type(self, abs: &Abs) -> (r: Result<(ValInfo, TCS), TCE>)
        ensures
            match (r, check_type_spec(self@, *abs)) {
                (Ok(p), Ok(q)) => p.0 == q.0 && p.1@ == q.1,
                (Err(e1), Err(e2)) => e1 == e2,
                _ => false,
            },
            r matches Ok(p) ==> judgment_keeps(self, p.1),
    {
        check_type(self, abs)
    }
}

} // verus!
