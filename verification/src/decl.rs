use vstd::prelude::*;
use crate::base::{Fatal, TCE};
use crate::abs::AbsDecl;
use crate::check::{check, check_spec, check_type, check_type_spec, infer, infer_spec};
use crate::state::{metas_evolve, paired, StateV, TCS};
use crate::val::{Neutral, Val, ValInfo};
use crate::eval::{eval_at, evaluate_spec};
use crate::abs::abs_info_spec;

verus! {

/// The result of checking declarations: the new state, or the error that
/// aborted the whole batch with nothing committed.
pub type TCM = Result<TCS, TCE>;

/// The relation between the state before and after one successful
/// declaration: exactly one entry is appended to each global array and no
/// earlier entry changes, the local contexts end as they began, the meta
/// store only evolves, and the pairing of the contexts is kept.
pub open spec fn commits_one(a: TCS, b: TCS) -> bool {
    &&& b.gamma@.len() == a.gamma@.len() + 1
    &&& b.env@.len() == a.env@.len() + 1
    &&& b.gamma@.subrange(0, a.gamma@.len() as int) == a.gamma@
    &&& b.env@.subrange(0, a.env@.len() as int) == a.env@
    &&& b.local_gamma@ == a.local_gamma@
    &&& b.local_env@ == a.local_env@
    &&& metas_evolve(a.meta_context@, b.meta_context@)
}

/// The relation between the state before and after a whole batch: the
/// global arrays are extended without touching earlier entries, the local
/// contexts end as they began, and the meta store only evolves.
pub open spec fn commits_batch(a: TCS, b: TCS) -> bool {
    &&& a.gamma@.len() <= b.gamma@.len()
    &&& a.env@.len() <= b.env@.len()
    &&& b.gamma@.len() - a.gamma@.len() == b.env@.len() - a.env@.len()
    &&& b.gamma@.subrange(0, a.gamma@.len() as int) == a.gamma@
    &&& b.env@.subrange(0, a.env@.len() as int) == a.env@
    &&& b.local_gamma@ == a.local_gamma@
    &&& b.local_env@ == a.local_env@
    &&& metas_evolve(a.meta_context@, b.meta_context@)
}

/// A batch relation composes: extending an extension is an extension.
pub proof fn lemma_commits_batch_trans(a: TCS, b: TCS, c: TCS)
    requires
        commits_batch(a, b),
        commits_batch(b, c),
    ensures
        commits_batch(a, c),
{
    assert(c.gamma@.subrange(0, a.gamma@.len() as int) =~= c.gamma@.subrange(
        0,
        b.gamma@.len() as int,
    ).subrange(0, a.gamma@.len() as int));
    assert(c.env@.subrange(0, a.env@.len() as int) =~= c.env@.subrange(
        0,
        b.env@.len() as int,
    ).subrange(0, a.env@.len() as int));
    crate::state::lemma_metas_evolve_trans(a.meta_context@, b.meta_context@, c.meta_context@);
}

/// One successful declaration makes a batch step.
pub proof fn lemma_commits_one_batch(a: TCS, b: TCS)
    requires
        commits_one(a, b),
    ensures
        commits_batch(a, b),
{
}

/// The global index a declaration is tagged with.
pub open spec fn decl_index(d: AbsDecl) -> crate::base::GI {
    match d {
        AbsDecl::Sign(_, gi) => gi,
        AbsDecl::Impl(_, gi) => gi,
        AbsDecl::Both(_, _, gi) => gi,
    }
}

/// What checking one declaration returns. A declaration whose tag is not
/// the next free global index is an internal failure. A `Sign` checks its
/// signature as a type and appends it to the typing context paired with the
/// opaque postulate value; an `Impl` appends its inferred type and its
/// evaluated value; a `Both` first reserves its index with the checked
/// signature and the postulate placeholder, checks the body against the
/// signature in that state, and installs the body's value over the
/// placeholder. Any failure is the failing judgment's error.
pub open spec fn check_decl_spec(s: StateV, decl: AbsDecl) -> Result<StateV, TCE> {
    if decl_index(decl).0 != s.env.len() {
        Err(TCE::Internal(Fatal::GlobOut))
    } else {
        match decl {
            AbsDecl::Sign(sign_abs, _) => match check_type_spec(s, sign_abs) {
                Ok((sign_val, s1)) => Ok(
                    StateV {
                        gamma: s1.gamma.push(sign_val),
                        env: s1.env.push(
                            ValInfo {
                                ast: Val::Neut(Neutral::Gen(None)),
                                info: abs_info_spec(sign_abs),
                            },
                        ),
                        ..s1
                    },
                ),
                Err(e) => Err(e),
            },
            AbsDecl::Impl(impl_abs, _) => match infer_spec(s, impl_abs) {
                Ok((inferred, s1)) => match evaluate_spec(s1, impl_abs) {
                    Ok(compiled) => Ok(
                        StateV { gamma: s1.gamma.push(inferred), env: s1.env.push(compiled), ..s1 },
                    ),
                    Err(e) => Err(e),
                },
                Err(e) => Err(e),
            },
            AbsDecl::Both(sign_abs, impl_abs, gi) => match check_type_spec(s, sign_abs) {
                Ok((sign_val, s1)) => {
                    let s2 = StateV {
                        gamma: s1.gamma.push(sign_val),
                        env: s1.env.push(
                            ValInfo {
                                ast: Val::Neut(Neutral::Gen(None)),
                                info: abs_info_spec(sign_abs),
                            },
                        ),
                        ..s1
                    };
                    match check_spec(s2, impl_abs, sign_val.ast) {
                        Ok((impl_val, s3)) => Ok(
                            StateV { env: s3.env.update(gi.0 as int, impl_val), ..s3 },
                        ),
                        Err(e) => Err(e),
                    }
                },
                Err(e) => Err(e),
            },
        }
    }
}

/// What checking a batch returns: the declarations are checked strictly left
/// to right, each resulting state feeding the next, and the first failure
/// aborts the whole batch with that declaration's error.
pub open spec fn check_decls_spec(s: StateV, decls: Seq<AbsDecl>) -> Result<StateV, TCE>
    decreases decls.len(),
{
    if decls.len() == 0 {
        Ok(s)
    } else {
        match check_decl_spec(s, decls[0]) {
            Ok(s1) => check_decls_spec(s1, decls.drop_first()),
            Err(e) => Err(e),
        }
    }
}

/// Checks one declaration against the state and commits it: the signature
/// of a `Sign` is checked as a type and an opaque postulate value stands in
/// for its implementation; an `Impl` has its type inferred; a `Both` first
/// reserves its global index with the checked signature and the postulate
/// placeholder, so that the body may refer to itself through that index,
/// then checks the body against the signature and installs its value. Any
/// failure aborts with nothing committed.
pub fn check_decl(tcs: TCS, decl: AbsDecl) -> (r: TCM)
    ensures
        match (r, check_decl_spec(tcs@, decl)) {
            (Ok(t2), Ok(sv)) => t2@ == sv,
            (Err(e1), Err(e2)) => e1 == e2,
            _ => false,
        },
        r matches Ok(t2) ==> commits_one(tcs, t2),
        r matches Ok(t2) ==> (paired(tcs) ==> paired(t2)),
{
    let ghost t0 = tcs;
    match decl {
        AbsDecl::Sign(sign_abs, gi) => {
            if gi.0 != tcs.env.len() {
                return Err(TCE::Internal(Fatal::GlobOut));
            }
            let span = sign_abs.syntax_info();
            let (sign_val, tcs) = match check_type(tcs, &sign_abs) {
                Ok(p) => p,
                Err(e) => {
                    return Err(e);
                },
            };
            let mut tcs = tcs;
            tcs.gamma.push(sign_val);
            tcs.env.push(Val::postulate().into_info(span));
            proof {
                assert(tcs.gamma@.subrange(0, t0.gamma@.len() as int) =~= t0.gamma@);
                assert(tcs.env@.subrange(0, t0.env@.len() as int) =~= t0.env@);
            }
            Ok(tcs)
        },
        AbsDecl::Impl(impl_abs, gi) => {
            if gi.0 != tcs.env.len() {
                return Err(TCE::Internal(Fatal::GlobOut));
            }
            let (inferred, tcs) = match infer(tcs, &impl_abs) {
                Ok(p) => p,
                Err(e) => {
                    return Err(e);
                },
            };
            let compiled = match eval_at(&tcs, &impl_abs) {
                Ok(v) => v,
                Err(e) => {
                    return Err(e);
                },
            };
            let mut tcs = tcs;
            tcs.gamma.push(inferred);
            tcs.env.push(compiled);
            proof {
                assert(tcs.gamma@.subrange(0, t0.gamma@.len() as int) =~= t0.gamma@);
                assert(tcs.env@.subrange(0, t0.env@.len() as int) =~= t0.env@);
            }
            Ok(tcs)
        },
        AbsDecl::Both(sign_abs, impl_abs, gi) => {
            if gi.0 != tcs.env.len() {
                return Err(TCE::Internal(Fatal::GlobOut));
            }
            let span = sign_abs.syntax_info();
            let ghost m0 = tcs.meta_context@;
            let (sign_val, tcs) = match check_type(tcs, &sign_abs) {
                Ok(p) => p,
                Err(e) => {
                    return Err(e);
                },
            };
            let mut tcs = tcs;
            let expected = sign_val.ast.clone();
            tcs.gamma.push(sign_val);
            tcs.env.push(Val::postulate().into_info(span));
            let ghost m1 = tcs.meta_context@;
            let (impl_val, tcs) = match check(tcs, &impl_abs, &expected) {
                Ok(p) => p,
                Err(e) => {
                    return Err(e);
                },
            };
            let mut tcs = tcs;
            tcs.env.set(gi.0, impl_val);
            proof {
                assert(tcs.gamma@.subrange(0, t0.gamma@.len() as int) =~= t0.gamma@);
                assert(tcs.env@.subrange(0, t0.env@.len() as int) =~= t0.env@);
                crate::state::lemma_metas_evolve_trans(m0, m1, tcs.meta_context@);
            }
            Ok(tcs)
        },
    }
}

/// Checks a batch of declarations strictly left to right: the state after
/// each is the input to the next, and any failure aborts the whole batch
/// immediately with nothing committed.
#[verifier::rlimit(60)]
#[verifier::loop_isolation(false)]
pub fn check_decls(tcs: TCS, decls: Vec<AbsDecl>) -> (r: TCM)
    ensures
        match (r, check_decls_spec(tcs@, decls@)) {
            (Ok(t2), Ok(sv)) => t2@ == sv,
            (Err(e1), Err(e2)) => e1 == e2,
            _ => false,
        },
        r matches Ok(t2) ==> commits_batch(tcs, t2),
        r matches Ok(t2) ==> t2.gamma@.len() - tcs.gamma@.len() == decls@.len(),
        r matches Ok(t2) ==> (paired(tcs) ==> paired(t2)),
{
    let ghost t0 = tcs;
    let ghost decls0 = decls@;
    let mut cur = tcs;
    let mut rest = decls;
    let ghost n = decls0.len();
    let ghost mut done: int = 0;
    proof {
        assert(cur.gamma@.subrange(0, t0.gamma@.len() as int) =~= t0.gamma@);
        assert(cur.env@.subrange(0, t0.env@.len() as int) =~= t0.env@);
    }
    while rest.len() > 0
        invariant
            commits_batch(t0, cur),
            done + rest@.len() == n,
            cur.gamma@.len() == t0.gamma@.len() + done,
            cur.env@.len() == t0.env@.len() + done,
            check_decls_spec(t0@, decls0) == check_decls_spec(cur@, rest@),
        decreases rest@.len(),
    {
        let ghost remaining = rest@;
        let decl = rest.remove(0);
        let ghost before = cur;
        proof {
            assert(remaining.drop_first() =~= rest@);
        }
        cur = match check_decl(cur, decl) {
            Ok(t) => t,
            Err(e) => {
                proof {
                    assert(remaining[0] == decl);
                    assert(check_decls_spec(before@, remaining) == Err::<StateV, TCE>(e));
                    assert(check_decls_spec(t0@, decls0) == Err::<StateV, TCE>(e));
                }
                return Err(e);
            },
        };
        proof { done = done + 1; }
        proof {
            assert(check_decl_spec(before@, decl) == Ok::<StateV, TCE>(cur@));
            assert(check_decls_spec(before@, remaining) == check_decls_spec(cur@, rest@));
            lemma_commits_one_batch(before, cur);
            lemma_commits_batch_trans(t0, before, cur);
        }
    }
    Ok(cur)
}

impl TCS {
    /// Checking a whole batch, as a method.
    pub fn check_decls(self, decls: Vec<AbsDecl>) -> (r: TCM)
        ensures
            match (r, check_decls_spec(self@, decls@)) {
                (Ok(t2), Ok(sv)) => t2@ == sv,
                (Err(e1), Err(e2)) => e1 == e2,
                _ => false,
            },
            r matches Ok(t2) ==> commits_batch(self, t2),
            r matches Ok(t2) ==> (paired(self) ==> paired(t2)),
    {
        check_decls(self, decls)
    }

    /// Checking one declaration, as a method.
    pub fn check_decl(self, decl: AbsDecl) -> (r: TCM)
        ensures
            match (r, check_decl_spec(self@, decl)) {
                (Ok(t2), Ok(sv)) => t2@ == sv,
                (Err(e1), Err(e2)) => e1 == e2,
                _ => false,
            },
            r matches Ok(t2) ==> commits_one(self, t2),
            r matches Ok(t2) ==> (paired(self) ==> paired(t2)),
    {
        check_decl(self, decl)
    }
}

} // verus!
