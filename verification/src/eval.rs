use vstd::prelude::*;
use crate::base::{Fatal, Ident, Text, TCE, DBI, FUEL};
use crate::abs::Abs;
use crate::state::{MetaSolution, StateV, TCS};
use crate::val::{
    lift_spec, neut_size, val_size, vapply_spec, variants_size, vfirst_spec, vsecond_spec, Neutral,
    Val, ValInfo, Variants,
};

verus! {

/// A name with its leading tag sigil removed: the label of the constructor
/// or variant it denotes.
pub open spec fn strip_sigil_spec(t: Text) -> Text {
    match t {
        Text::Nil => Text::Nil,
        Text::Cons(_, rest) => *rest,
    }
}

/// Removes the leading tag sigil from a surface name.
pub fn strip_sigil(t: &Text) -> (r: Text)
    ensures
        r == strip_sigil_spec(*t),
{
    match t {
        Text::Nil => Text::Nil,
        Text::Cons(_, rest) => (**rest).clone(),
    }
}

/// What `compile_cons` returns: a one-argument closure that wraps its
/// argument as a value tagged with the name's label.
pub open spec fn compile_cons_spec(info: Ident) -> ValInfo {
    ValInfo {
        ast: Val::Lam(
            Box::new(
                Val::Cons(
                    strip_sigil_spec(info.text),
                    Box::new(Val::Neut(Neutral::Gen(Some(DBI(0))))),
                ),
            ),
        ),
        info: info.info,
    }
}

/// What `compile_variant` returns: a one-argument closure whose body is the
/// sum with the name's label alone, mapped to the argument.
pub open spec fn compile_variant_spec(info: Ident) -> ValInfo {
    ValInfo {
        ast: Val::Lam(
            Box::new(
                Val::Sum(
                    Variants::Cons(
                        strip_sigil_spec(info.text),
                        Box::new(Val::Neut(Neutral::Gen(Some(DBI(0))))),
                        Box::new(Variants::Nil),
                    ),
                ),
            ),
        ),
        info: info.info,
    }
}

/// Desugars a constructor name, its leading tag sigil stripped, into the
/// closure that builds its tagged values.
pub fn compile_cons(info: Ident) -> (r: ValInfo)
    ensures
        r == compile_cons_spec(info),
{
    let Ident { info: span, text } = info;
    let label = strip_sigil(&text);
    Val::lam(Val::cons(label, Val::var(DBI(0)))).into_info(span)
}

/// Desugars a variant name into the closure that builds the one-label sum
/// over its argument.
pub fn compile_variant(info: Ident) -> (r: ValInfo)
    ensures
        r == compile_variant_spec(info),
{
    let Ident { info: span, text } = info;
    let label = strip_sigil(&text);
    let variant = Variants::Cons(
        label,
        Box::new(Val::var(DBI(0))),
        Box::new(Variants::Nil),
    );
    Val::lam(Val::Sum(variant)).into_info(span)
}

/// What `expand_meta` returns: the solution applied, left to right, to each
/// local variable in scope; the rightmost local variable has index 0.
pub open spec fn expand_meta_spec(local_vars: Seq<ValInfo>, solution: Val) -> Result<Val, Fatal>
    decreases local_vars.len(),
{
    if local_vars.len() == 0 {
        Ok(solution)
    } else {
        match vapply_spec(solution, local_vars[0].ast, FUEL as nat) {
            Ok(applied) => expand_meta_spec(local_vars.drop_first(), applied),
            Err(e) => Err(e),
        }
    }
}

/// Applies a meta's solution to every local variable in scope, turning the
/// abstracted solution into the value it stands for at this depth.
pub fn expand_meta(local_vars: &[ValInfo], solution: Box<Val>) -> (r: Result<Val, Fatal>)
    ensures
        r == expand_meta_spec(local_vars@, *solution),
{
    let mut acc: Val = *solution;
    let mut i: usize = 0;
    proof {
        assert(local_vars@.skip(0) =~= local_vars@);
    }
    while i < local_vars.len()
        invariant
            i <= local_vars@.len(),
            expand_meta_spec(local_vars@, *solution) == expand_meta_spec(
                local_vars@.skip(i as int),
                acc,
            ),
        decreases local_vars@.len() - i,
    {
        proof {
            assert(local_vars@.skip(i as int)[0] == local_vars@[i as int]);
            assert(local_vars@.skip(i as int).drop_first() =~= local_vars@.skip(i as int + 1));
        }
        acc = match acc.apply_borrow(local_vars[i].ast.clone()) {
            Ok(v) => v,
            Err(e) => {
                return Err(e);
            },
        };
        i = i + 1;
    }
    proof {
        assert(local_vars@.skip(i as int).len() == 0);
    }
    Ok(acc)
}

/// What global expansion returns: every neutral leaf that is a global or
/// meta reference is rewritten to its stored value, and the eliminations
/// around it fire again. Globals resolve by direct index; metas resolve
/// through the store, where only a solved meta is legal.
pub open spec fn expand_spec(
    v: Val,
    globals: Seq<ValInfo>,
    metas: Seq<MetaSolution>,
    fuel: nat,
) -> Result<Val, Fatal>
    decreases val_size(v), 0int,
{
    match v {
        Val::Type(l) => Ok(Val::Type(l)),
        Val::Bot => Ok(Val::Bot),
        Val::Lam(b) => match expand_spec(*b, globals, metas, fuel) {
            Ok(nb) => Ok(Val::Lam(Box::new(nb))),
            Err(e) => Err(e),
        },
        Val::Dt(k, p, q) => match expand_spec(*p, globals, metas, fuel) {
            Ok(np) => match expand_spec(*q, globals, metas, fuel) {
                Ok(nq) => Ok(Val::Dt(k, Box::new(np), Box::new(nq))),
                Err(e) => Err(e),
            },
            Err(e) => Err(e),
        },
        Val::Pair(a, b) => match expand_spec(*a, globals, metas, fuel) {
            Ok(na) => match expand_spec(*b, globals, metas, fuel) {
                Ok(nb) => Ok(Val::Pair(Box::new(na), Box::new(nb))),
                Err(e) => Err(e),
            },
            Err(e) => Err(e),
        },
        Val::Sum(vs) => match expand_variants_spec(vs, globals, metas, fuel) {
            Ok(nvs) => Ok(Val::Sum(nvs)),
            Err(e) => Err(e),
        },
        Val::Cons(lbl, p) => match expand_spec(*p, globals, metas, fuel) {
            Ok(np) => Ok(Val::Cons(lbl, Box::new(np))),
            Err(e) => Err(e),
        },
        Val::Neut(n) => expand_neut_spec(n, globals, metas, fuel),
    }
}

/// Global expansion under every payload type of a variant list.
pub open spec fn expand_variants_spec(
    vs: Variants,
    globals: Seq<ValInfo>,
    metas: Seq<MetaSolution>,
    fuel: nat,
) -> Result<Variants, Fatal>
    decreases variants_size(vs), 1int,
{
    match vs {
        Variants::Nil => Ok(Variants::Nil),
        Variants::Cons(lbl, p, rest) => match expand_spec(*p, globals, metas, fuel) {
            Ok(np) => match expand_variants_spec(*rest, globals, metas, fuel) {
                Ok(nrest) => Ok(Variants::Cons(lbl, Box::new(np), Box::new(nrest))),
                Err(e) => Err(e),
            },
            Err(e) => Err(e),
        },
    }
}

/// Global expansion of a stuck value.
pub open spec fn expand_neut_spec(
    n: Neutral,
    globals: Seq<ValInfo>,
    metas: Seq<MetaSolution>,
    fuel: nat,
) -> Result<Val, Fatal>
    decreases neut_size(n), 2int,
{
    match n {
        Neutral::Gen(g) => Ok(Val::Neut(Neutral::Gen(g))),
        Neutral::Ref(gi) => if gi.0 < globals.len() {
            Ok(globals[gi.0 as int].ast)
        } else {
            Err(Fatal::GlobOut)
        },
        Neutral::Meta(mi) => if mi.0 < metas.len() {
            match metas[mi.0 as int] {
                MetaSolution::Solved(v) => Ok(*v),
                MetaSolution::Unsolved => Err(Fatal::MetaUnsolved),
                MetaSolution::Inlined => Err(Fatal::MetaInlined),
            }
        } else {
            Err(Fatal::MetaOut)
        },
        Neutral::App(f, a) => match expand_neut_spec(*f, globals, metas, fuel) {
            Ok(nf) => match expand_spec(*a, globals, metas, fuel) {
                Ok(na) => vapply_spec(nf, na, fuel),
                Err(e) => Err(e),
            },
            Err(e) => Err(e),
        },
        Neutral::Fst(p) => match expand_neut_spec(*p, globals, metas, fuel) {
            Ok(np) => vfirst_spec(np),
            Err(e) => Err(e),
        },
        Neutral::Snd(p) => match expand_neut_spec(*p, globals, metas, fuel) {
            Ok(np) => vsecond_spec(np),
            Err(e) => Err(e),
        },
    }
}

fn expand_at(v: Val, tcs: &TCS, fuel: usize) -> (r: Result<Val, Fatal>)
    ensures
        r == expand_spec(v, tcs.env@, tcs.meta_context@, fuel as nat),
    decreases val_size(v), 0int,
{
    match v {
        Val::Type(l) => Ok(Val::Type(l)),
        Val::Bot => Ok(Val::Bot),
        Val::Lam(b) => match expand_at(*b, tcs, fuel) {
            Ok(nb) => Ok(Val::Lam(Box::new(nb))),
            Err(e) => Err(e),
        },
        Val::Dt(k, p, q) => {
            let np = match expand_at(*p, tcs, fuel) {
                Ok(x) => x,
                Err(e) => {
                    return Err(e);
                },
            };
            match expand_at(*q, tcs, fuel) {
                Ok(nq) => Ok(Val::Dt(k, Box::new(np), Box::new(nq))),
                Err(e) => Err(e),
            }
        },
        Val::Pair(a, b) => {
            let na = match expand_at(*a, tcs, fuel) {
                Ok(x) => x,
                Err(e) => {
                    return Err(e);
                },
            };
            match expand_at(*b, tcs, fuel) {
                Ok(nb) => Ok(Val::Pair(Box::new(na), Box::new(nb))),
                Err(e) => Err(e),
            }
        },
        Val::Sum(vs) => match expand_variants_at(vs, tcs, fuel) {
            Ok(nvs) => Ok(Val::Sum(nvs)),
            Err(e) => Err(e),
        },
        Val::Cons(lbl, p) => match expand_at(*p, tcs, fuel) {
            Ok(np) => Ok(Val::Cons(lbl, Box::new(np))),
            Err(e) => Err(e),
        },
        Val::Neut(n) => expand_neut_at(n, tcs, fuel),
    }
}

fn expand_variants_at(vs: Variants, tcs: &TCS, fuel: usize) -> (r: Result<Variants, Fatal>)
    ensures
        r == expand_variants_spec(vs, tcs.env@, tcs.meta_context@, fuel as nat),
    decreases variants_size(vs), 1int,
{
    match vs {
        Variants::Nil => Ok(Variants::Nil),
        Variants::Cons(lbl, p, rest) => {
            let np = match expand_at(*p, tcs, fuel) {
                Ok(x) => x,
                Err(e) => {
                    return Err(e);
                },
            };
            match expand_variants_at(*rest, tcs, fuel) {
                Ok(nrest) => Ok(Variants::Cons(lbl, Box::new(np), Box::new(nrest))),
                Err(e) => Err(e),
            }
        },
    }
}

fn expand_neut_at(n: Neutral, tcs: &TCS, fuel: usize) -> (r: Result<Val, Fatal>)
    ensures
        r == expand_neut_spec(n, tcs.env@, tcs.meta_context@, fuel as nat),
    decreases neut_size(n), 2int,
{
    match n {
        Neutral::Gen(g) => Ok(Val::Neut(Neutral::Gen(g))),
        Neutral::Ref(gi) => if gi.0 < tcs.env.len() {
            Ok(tcs.glob_val(gi).ast.clone())
        } else {
            Err(Fatal::GlobOut)
        },
        Neutral::Meta(mi) => if mi.0 < tcs.meta_context.len() {
            match tcs.meta_solution(mi) {
                MetaSolution::Solved(v) => Ok((**v).clone()),
                MetaSolution::Unsolved => Err(Fatal::MetaUnsolved),
                MetaSolution::Inlined => Err(Fatal::MetaInlined),
            }
        } else {
            Err(Fatal::MetaOut)
        },
        Neutral::App(f, a) => {
            let nf = match expand_neut_at(*f, tcs, fuel) {
                Ok(x) => x,
                Err(e) => {
                    return Err(e);
                },
            };
            let na = match expand_at(*a, tcs, fuel) {
                Ok(x) => x,
                Err(e) => {
                    return Err(e);
                },
            };
            crate::val::vapply_at(nf, na, fuel)
        },
        Neutral::Fst(p) => match expand_neut_at(*p, tcs, fuel) {
            Ok(np) => np.first(),
            Err(e) => Err(e),
        },
        Neutral::Snd(p) => match expand_neut_at(*p, tcs, fuel) {
            Ok(np) => np.second(),
            Err(e) => Err(e),
        },
    }
}

/// What the evaluator returns on each form of checked abstract syntax. The
/// input is expected to be well typed already: on ill-formed input the
/// fatal condition is reported as a value instead of being papered over.
pub open spec fn evaluate_spec(s: StateV, abs: Abs) -> Result<ValInfo, TCE>
    decreases abs,
{
    match abs {
        Abs::Type(info, level) => Ok(ValInfo { ast: Val::Type(level), info }),
        Abs::Bot(info) => Ok(ValInfo { ast: Val::Bot, info }),
        Abs::Var(ident, _, i) => if i.0 < s.local_env.len() {
            Ok(
                ValInfo {
                    ast: crate::val::attach_spec(
                        s.local_env[s.local_env.len() - 1 - i.0].ast,
                        i,
                    ),
                    info: ident.info,
                },
            )
        } else {
            Err(TCE::Internal(Fatal::LocalOut))
        },
        Abs::Ref(ident, gi) => if gi.0 < s.env.len() {
            Ok(ValInfo { ast: s.env[gi.0 as int].ast, info: ident.info })
        } else {
            Err(TCE::Internal(Fatal::GlobOut))
        },
        Abs::Meta(ident, mi) => Ok(ValInfo { ast: Val::Neut(Neutral::Meta(mi)), info: ident.info }),
        Abs::Cons(ident) => Ok(compile_cons_spec(ident)),
        Abs::App(info, f, a) => match evaluate_spec(s, *f) {
            Ok(fv) => match evaluate_spec(s, *a) {
                Ok(av) => match expand_spec(fv.ast, s.env, s.metas, FUEL as nat) {
                    Ok(fe) => match vapply_spec(fe, av.ast, FUEL as nat) {
                        Ok(res) => Ok(ValInfo { ast: res, info }),
                        Err(e) => Err(TCE::Internal(e)),
                    },
                    Err(e) => Err(TCE::Internal(e)),
                },
                Err(e) => Err(e),
            },
            Err(e) => Err(e),
        },
        Abs::Dt(info, kind, _, param_ty, ret_ty) => match evaluate_spec(s, *param_ty) {
            Ok(pv) => match evaluate_spec(s, *ret_ty) {
                Ok(rv) => Ok(
                    ValInfo { ast: Val::Dt(kind, Box::new(pv.ast), Box::new(rv.ast)), info },
                ),
                Err(e) => Err(e),
            },
            Err(e) => Err(e),
        },
        Abs::Pair(info, a, b) => match evaluate_spec(s, *a) {
            Ok(av) => match evaluate_spec(s, *b) {
                Ok(bv) => Ok(ValInfo { ast: Val::Pair(Box::new(av.ast), Box::new(bv.ast)), info }),
                Err(e) => Err(e),
            },
            Err(e) => Err(e),
        },
        Abs::Fst(info, p) => match evaluate_spec(s, *p) {
            Ok(pv) => match expand_spec(pv.ast, s.env, s.metas, FUEL as nat) {
                Ok(pe) => match vfirst_spec(pe) {
                    Ok(res) => Ok(ValInfo { ast: res, info }),
                    Err(e) => Err(TCE::Internal(e)),
                },
                Err(e) => Err(TCE::Internal(e)),
            },
            Err(e) => Err(e),
        },
        Abs::Snd(info, p) => match evaluate_spec(s, *p) {
            Ok(pv) => match expand_spec(pv.ast, s.env, s.metas, FUEL as nat) {
                Ok(pe) => match vsecond_spec(pe) {
                    Ok(res) => Ok(ValInfo { ast: res, info }),
                    Err(e) => Err(TCE::Internal(e)),
                },
                Err(e) => Err(TCE::Internal(e)),
            },
            Err(e) => Err(e),
        },
        Abs::Lam(info, _, _, body) => match evaluate_spec(s, *body) {
            Ok(bv) => Ok(ValInfo { ast: bv.ast, info }),
            Err(e) => Err(e),
        },
        Abs::Lift(info, levels, expr) => match evaluate_spec(s, *expr) {
            Ok(ev) => match expand_spec(ev.ast, s.env, s.metas, FUEL as nat) {
                Ok(ee) => match lift_spec(ee, levels as nat) {
                    Ok(res) => Ok(ValInfo { ast: res, info }),
                    Err(e) => Err(TCE::Internal(e)),
                },
                Err(e) => Err(TCE::Internal(e)),
            },
            Err(e) => Err(e),
        },
        Abs::Sum(info, _) => Err(TCE::NotImplemented(info)),
    }
}

pub(crate) fn eval_at(tcs: &TCS, abs: &Abs) -> (r: Result<ValInfo, TCE>)
    ensures
        r == evaluate_spec(tcs@, *abs),
    decreases abs,
{
    match abs {
        Abs::Type(info, level) => Ok(Val::Type(*level).into_info(*info)),
        Abs::Bot(info) => Ok(Val::bot().into_info(*info)),
        Abs::Var(ident, _, i) => if i.0 < tcs.local_len() {
            let resolved = tcs.local_val(*i).ast.clone().attach_dbi(*i);
            Ok(resolved.into_info(ident.info))
        } else {
            Err(TCE::Internal(Fatal::LocalOut))
        },
        Abs::Ref(ident, gi) => if gi.0 < tcs.env.len() {
            Ok(tcs.glob_val(*gi).ast.clone().into_info(ident.info))
        } else {
            Err(TCE::Internal(Fatal::GlobOut))
        },
        Abs::Meta(ident, mi) => Ok(Val::meta(*mi).into_info(ident.info)),
        Abs::Cons(ident) => Ok(compile_cons(ident.clone())),
        Abs::App(info, f, a) => {
            let fv = match eval_at(tcs, f) {
                Ok(x) => x,
                Err(e) => {
                    return Err(e);
                },
            };
            let av = match eval_at(tcs, a) {
                Ok(x) => x,
                Err(e) => {
                    return Err(e);
                },
            };
            let fe = match expand_at(fv.ast, tcs, FUEL) {
                Ok(x) => x,
                Err(e) => {
                    return Err(TCE::Internal(e));
                },
            };
            match crate::val::vapply_at(fe, av.ast, FUEL) {
                Ok(res) => Ok(res.into_info(*info)),
                Err(e) => Err(TCE::Internal(e)),
            }
        },
        Abs::Dt(info, kind, _, param_ty, ret_ty) => {
            let pv = match eval_at(tcs, param_ty) {
                Ok(x) => x,
                Err(e) => {
                    return Err(e);
                },
            };
            match eval_at(tcs, ret_ty) {
                Ok(rv) => Ok(Val::dependent_type(*kind, pv.ast, rv.ast).into_info(*info)),
                Err(e) => Err(e),
            }
        },
        Abs::Pair(info, a, b) => {
            let av = match eval_at(tcs, a) {
                Ok(x) => x,
                Err(e) => {
                    return Err(e);
                },
            };
            match eval_at(tcs, b) {
                Ok(bv) => Ok(Val::pair(av.ast, bv.ast).into_info(*info)),
                Err(e) => Err(e),
            }
        },
        Abs::Fst(info, p) => {
            let pv = match eval_at(tcs, p) {
                Ok(x) => x,
                Err(e) => {
                    return Err(e);
                },
            };
            let pe = match expand_at(pv.ast, tcs, FUEL) {
                Ok(x) => x,
                Err(e) => {
                    return Err(TCE::Internal(e));
                },
            };
            match pe.first() {
                Ok(res) => Ok(res.into_info(*info)),
                Err(e) => Err(TCE::Internal(e)),
            }
        },
        Abs::Snd(info, p) => {
            let pv = match eval_at(tcs, p) {
                Ok(x) => x,
                Err(e) => {
                    return Err(e);
                },
            };
            let pe = match expand_at(pv.ast, tcs, FUEL) {
                Ok(x) => x,
                Err(e) => {
                    return Err(TCE::Internal(e));
                },
            };
            match pe.second() {
                Ok(res) => Ok(res.into_info(*info)),
                Err(e) => Err(TCE::Internal(e)),
            }
        },
        Abs::Lam(info, _, _, body) => match eval_at(tcs, body) {
            Ok(bv) => Ok(bv.ast.into_info(*info)),
            Err(e) => Err(e),
        },
        Abs::Lift(info, levels, expr) => {
            let ev = match eval_at(tcs, expr) {
                Ok(x) => x,
                Err(e) => {
                    return Err(e);
                },
            };
            let ee = match expand_at(ev.ast, tcs, FUEL) {
                Ok(x) => x,
                Err(e) => {
                    return Err(TCE::Internal(e));
                },
            };
            match ee.lift(*levels as usize) {
                Ok(res) => Ok(res.into_info(*info)),
                Err(e) => Err(TCE::Internal(e)),
            }
        },
        Abs::Sum(info, _) => Err(TCE::NotImplemented(*info)),
    }
}

/// The constructor-desugaring law: the closure that a constructor name
/// compiles to, applied to any argument, wraps that argument as the value
/// tagged with the name's label — the name with its leading sigil stripped.
pub proof fn lemma_cons_closure(info: Ident, arg: Val, fuel: nat)
    requires
        fuel >= 1,
    ensures
        vapply_spec(compile_cons_spec(info).ast, arg, fuel) == Ok::<Val, Fatal>(
            Val::Cons(strip_sigil_spec(info.text), Box::new(arg)),
        ),
{
    let body = Val::Cons(
        strip_sigil_spec(info.text),
        Box::new(Val::Neut(Neutral::Gen(Some(DBI(0))))),
    );
    assert(vapply_spec(compile_cons_spec(info).ast, arg, fuel) == crate::val::subst_spec(
        body,
        0,
        arg,
        (fuel - 1) as nat,
    ));
    assert(crate::val::subst_neut_spec(Neutral::Gen(Some(DBI(0))), 0, arg, (fuel - 1) as nat)
        == Ok::<Val, Fatal>(arg));
}

impl TCS {
    /// Evaluates checked abstract syntax against the current state, which it
    /// reads but never changes. Globals and metas referenced by the result
    /// are kept folded except where an elimination forces them.
    pub fn evaluate(self, abs: Abs) -> (r: Result<(ValInfo, TCS), TCE>)
        ensures
            r matches Ok(p) ==> evaluate_spec(self@, abs) == Ok::<ValInfo, TCE>(p.0) && p.1 == self,
            r matches Err(e) ==> evaluate_spec(self@, abs) == Err::<ValInfo, TCE>(e),
    {
        match eval_at(&self, &abs) {
            Ok(v) => Ok((v, self)),
            Err(e) => Err(e),
        }
    }

    /// Rewrites every global and meta reference in the value to its stored
    /// value, failing on an unsolved or inlined meta. The state is read but
    /// never changed.
    pub fn expand_global(self, expr: Val) -> (r: Result<(Val, TCS), TCE>)
        ensures
            r matches Ok(p) ==> expand_spec(expr, self.env@, self.meta_context@, FUEL as nat)
                == Ok::<Val, Fatal>(p.0) && p.1 == self,
            r matches Err(e) ==> (match expand_spec(
                expr,
                self.env@,
                self.meta_context@,
                FUEL as nat,
            ) {
                Ok(_) => false,
                Err(f) => e == TCE::Internal(f),
            }),
    {
        match expand_at(expr, &self, FUEL) {
            Ok(v) => Ok((v, self)),
            Err(e) => Err(TCE::Internal(e)),
        }
    }
}

} // verus!

