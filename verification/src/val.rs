use vstd::prelude::*;
use crate::base::{text_eq, DBI, DtKind, Fatal, GI, Level, MI, SyntaxInfo, Text, FUEL};

verus! {

/// A semantic value paired with its source span. This is what the contexts
/// of the elaboration state store.
#[derive(Debug, PartialEq, Eq)]
pub struct ValInfo {
    pub ast: Val,
    pub info: SyntaxInfo,
}

/// The evaluator's output shape: structurally parallel to the core terms,
/// with neutral leaves extended by global and meta references, plus the
/// tagged-sum forms used to encode constructor sugar. Binding is by de
/// Bruijn index: a function body refers to its parameter as the generated
/// variable at index 0.
#[derive(Debug, PartialEq, Eq)]
pub enum Val {
    /// Type universe at a level.
    Type(Level),
    /// The empty type.
    Bot,
    /// Function value; the body is under one binder.
    Lam(Box<Val>),
    /// Dependent type of the given kind: parameter type and return type.
    Dt(DtKind, Box<Val>, Box<Val>),
    /// Sigma instance.
    Pair(Box<Val>, Box<Val>),
    /// Tagged sum type: a mapping from label to payload type.
    Sum(Variants),
    /// Constructor value: a label-tagged payload.
    Cons(Text, Box<Val>),
    /// Stuck value.
    Neut(Neutral),
}

/// The label-to-payload-type mapping of a sum, most recently added first.
#[derive(Debug, PartialEq, Eq)]
pub enum Variants {
    Nil,
    Cons(Text, Box<Val>, Box<Variants>),
}

/// Stuck values: the neutral forms of the core terms extended by references
/// into the global context and the meta store, which are kept folded and
/// only unfolded on demand by global expansion.
#[derive(Debug, PartialEq, Eq)]
pub enum Neutral {
    /// Local or generated variable; `None` is a postulated value.
    Gen(Option<DBI>),
    /// Reference into the global value context.
    Ref(GI),
    /// Reference into the meta store.
    Meta(MI),
    /// Stuck application.
    App(Box<Neutral>, Box<Val>),
    /// Stuck first projection.
    Fst(Box<Neutral>),
    /// Stuck second projection.
    Snd(Box<Neutral>),
}

impl Clone for Val {
    fn clone(&self) -> (r: Self)
        ensures
            r == *self,
        decreases self,
    {
        match self {
            Val::Type(l) => Val::Type(*l),
            Val::Bot => Val::Bot,
            Val::Lam(b) => Val::Lam(Box::new((**b).clone())),
            Val::Dt(k, p, q) => Val::Dt(*k, Box::new((**p).clone()), Box::new((**q).clone())),
            Val::Pair(a, b) => Val::Pair(Box::new((**a).clone()), Box::new((**b).clone())),
            Val::Sum(vs) => Val::Sum(vs.clone()),
            Val::Cons(lbl, p) => Val::Cons(lbl.clone(), Box::new((**p).clone())),
            Val::Neut(n) => Val::Neut(n.clone()),
        }
    }
}

impl Clone for Variants {
    fn clone(&self) -> (r: Self)
        ensures
            r == *self,
        decreases self,
    {
        match self {
            Variants::Nil => Variants::Nil,
            Variants::Cons(lbl, p, rest) => Variants::Cons(
                lbl.clone(),
                Box::new((**p).clone()),
                Box::new((**rest).clone()),
            ),
        }
    }
}

impl Clone for Neutral {
    fn clone(&self) -> (r: Self)
        ensures
            r == *self,
        decreases self,
    {
        match self {
            Neutral::Gen(g) => Neutral::Gen(*g),
            Neutral::Ref(gi) => Neutral::Ref(*gi),
            Neutral::Meta(mi) => Neutral::Meta(*mi),
            Neutral::App(f, a) => Neutral::App(Box::new((**f).clone()), Box::new((**a).clone())),
            Neutral::Fst(p) => Neutral::Fst(Box::new((**p).clone())),
            Neutral::Snd(p) => Neutral::Snd(Box::new((**p).clone())),
        }
    }
}

impl Clone for ValInfo {
    fn clone(&self) -> (r: Self)
        ensures
            r == *self,
    {
        ValInfo { ast: self.ast.clone(), info: self.info }
    }
}

/// Structural size of a value, the measure that bounds the work between two
/// beta or projection steps.
pub open spec fn val_size(v: Val) -> nat
    decreases v,
{
    match v {
        Val::Type(_) => 1,
        Val::Bot => 1,
        Val::Lam(b) => 1 + val_size(*b),
        Val::Dt(_, p, q) => 1 + val_size(*p) + val_size(*q),
        Val::Pair(a, b) => 1 + val_size(*a) + val_size(*b),
        Val::Sum(vs) => 1 + variants_size(vs),
        Val::Cons(_, p) => 1 + val_size(*p),
        Val::Neut(n) => 1 + neut_size(n),
    }
}

/// Structural size of a sum's variant list.
pub open spec fn variants_size(vs: Variants) -> nat
    decreases vs,
{
    match vs {
        Variants::Nil => 1,
        Variants::Cons(_, p, rest) => 1 + val_size(*p) + variants_size(*rest),
    }
}

/// Structural size of a stuck value.
pub open spec fn neut_size(n: Neutral) -> nat
    decreases n,
{
    match n {
        Neutral::Gen(_) => 1,
        Neutral::Ref(_) => 1,
        Neutral::Meta(_) => 1,
        Neutral::App(f, a) => 1 + neut_size(*f) + val_size(*a),
        Neutral::Fst(p) => 1 + neut_size(*p),
        Neutral::Snd(p) => 1 + neut_size(*p),
    }
}

/// What `first` returns on a value: the first component of a pair, a deeper
/// stuck projection on a neutral, an invariant failure on anything else.
pub open spec fn vfirst_spec(v: Val) -> Result<Val, Fatal> {
    match v {
        Val::Pair(a, _) => Ok(*a),
        Val::Neut(n) => Ok(Val::Neut(Neutral::Fst(Box::new(n)))),
        _ => Err(Fatal::BadProj),
    }
}

/// What `second` returns on a value, dual to `vfirst_spec`.
pub open spec fn vsecond_spec(v: Val) -> Result<Val, Fatal> {
    match v {
        Val::Pair(_, b) => Ok(*b),
        Val::Neut(n) => Ok(Val::Neut(Neutral::Snd(Box::new(n)))),
        _ => Err(Fatal::BadProj),
    }
}

/// What `apply` returns on values: substitution of the argument for the
/// binder of a function value, a deeper stuck application on a neutral, an
/// invariant failure on anything else. One unit of fuel per beta step.
pub open spec fn vapply_spec(f: Val, arg: Val, fuel: nat) -> Result<Val, Fatal>
    decreases fuel, 0nat, 3int,
{
    match f {
        Val::Lam(b) => if fuel == 0 {
            Err(Fatal::Depth)
        } else {
            subst_spec(*b, 0, arg, (fuel - 1) as nat)
        },
        Val::Neut(n) => Ok(Val::Neut(Neutral::App(Box::new(n), Box::new(arg)))),
        _ => Err(Fatal::BadApply),
    }
}

/// Substitution of `arg` for the generated variable at index `i`, entering
/// one binder under `Lam`. Substituting into a stuck application can uncover
/// a new beta redex, which is re-applied and pays fuel. The argument's own
/// indices are not shifted: the checker only ever substitutes closed values
/// or freshly generated variables, so no capture can occur.
pub open spec fn subst_spec(v: Val, i: nat, arg: Val, fuel: nat) -> Result<Val, Fatal>
    decreases fuel, val_size(v), 0int,
{
    match v {
        Val::Type(l) => Ok(Val::Type(l)),
        Val::Bot => Ok(Val::Bot),
        Val::Lam(b) => if i >= usize::MAX {
            Err(Fatal::Depth)
        } else {
            match subst_spec(*b, i + 1, arg, fuel) {
                Ok(nb) => Ok(Val::Lam(Box::new(nb))),
                Err(e) => Err(e),
            }
        },
        Val::Dt(k, p, q) => match subst_spec(*p, i, arg, fuel) {
            Ok(np) => match subst_spec(*q, i, arg, fuel) {
                Ok(nq) => Ok(Val::Dt(k, Box::new(np), Box::new(nq))),
                Err(e) => Err(e),
            },
            Err(e) => Err(e),
        },
        Val::Pair(a, b) => match subst_spec(*a, i, arg, fuel) {
            Ok(na) => match subst_spec(*b, i, arg, fuel) {
                Ok(nb) => Ok(Val::Pair(Box::new(na), Box::new(nb))),
                Err(e) => Err(e),
            },
            Err(e) => Err(e),
        },
        Val::Sum(vs) => match subst_variants_spec(vs, i, arg, fuel) {
            Ok(nvs) => Ok(Val::Sum(nvs)),
            Err(e) => Err(e),
        },
        Val::Cons(lbl, p) => match subst_spec(*p, i, arg, fuel) {
            Ok(np) => Ok(Val::Cons(lbl, Box::new(np))),
            Err(e) => Err(e),
        },
        Val::Neut(n) => subst_neut_spec(n, i, arg, fuel),
    }
}

/// Substitution under every payload type of a variant list.
pub open spec fn subst_variants_spec(vs: Variants, i: nat, arg: Val, fuel: nat) -> Result<
    Variants,
    Fatal,
>
    decreases fuel, variants_size(vs), 1int,
{
    match vs {
        Variants::Nil => Ok(Variants::Nil),
        Variants::Cons(lbl, p, rest) => match subst_spec(*p, i, arg, fuel) {
            Ok(np) => match subst_variants_spec(*rest, i, arg, fuel) {
                Ok(nrest) => Ok(Variants::Cons(lbl, Box::new(np), Box::new(nrest))),
                Err(e) => Err(e),
            },
            Err(e) => Err(e),
        },
    }
}

/// Substitution into a stuck value. When the head of a stuck elimination
/// becomes canonical, the elimination fires again.
pub open spec fn subst_neut_spec(n: Neutral, i: nat, arg: Val, fuel: nat) -> Result<Val, Fatal>
    decreases fuel, neut_size(n), 2int,
{
    match n {
        Neutral::Gen(g) => match g {
            Some(j) => if j.0 == i {
                Ok(arg)
            } else {
                Ok(Val::Neut(Neutral::Gen(Some(j))))
            },
            None => Ok(Val::Neut(Neutral::Gen(None))),
        },
        Neutral::Ref(gi) => Ok(Val::Neut(Neutral::Ref(gi))),
        Neutral::Meta(mi) => Ok(Val::Neut(Neutral::Meta(mi))),
        Neutral::App(f, a) => match subst_neut_spec(*f, i, arg, fuel) {
            Ok(nf) => match subst_spec(*a, i, arg, fuel) {
                Ok(na) => vapply_spec(nf, na, fuel),
                Err(e) => Err(e),
            },
            Err(e) => Err(e),
        },
        Neutral::Fst(p) => match subst_neut_spec(*p, i, arg, fuel) {
            Ok(np) => vfirst_spec(np),
            Err(e) => Err(e),
        },
        Neutral::Snd(p) => match subst_neut_spec(*p, i, arg, fuel) {
            Ok(np) => vsecond_spec(np),
            Err(e) => Err(e),
        },
    }
}

pub(crate) fn vapply_at(f: Val, arg: Val, fuel: usize) -> (r: Result<Val, Fatal>)
    ensures
        r == vapply_spec(f, arg, fuel as nat),
    decreases fuel, 0nat, 3int,
{
    match f {
        Val::Lam(b) => if fuel == 0 {
            Err(Fatal::Depth)
        } else {
            subst_at(*b, 0, &arg, fuel - 1)
        },
        Val::Neut(n) => Ok(Val::Neut(Neutral::App(Box::new(n), Box::new(arg)))),
        _ => Err(Fatal::BadApply),
    }
}

fn subst_at(v: Val, i: usize, arg: &Val, fuel: usize) -> (r: Result<Val, Fatal>)
    ensures
        r == subst_spec(v, i as nat, *arg, fuel as nat),
    decreases fuel, val_size(v), 0int,
{
    match v {
        Val::Type(l) => Ok(Val::Type(l)),
        Val::Bot => Ok(Val::Bot),
        Val::Lam(b) => if i == usize::MAX {
            Err(Fatal::Depth)
        } else {
            match subst_at(*b, i + 1, arg, fuel) {
                Ok(nb) => Ok(Val::Lam(Box::new(nb))),
                Err(e) => Err(e),
            }
        },
        Val::Dt(k, p, q) => {
            let np = match subst_at(*p, i, arg, fuel) {
                Ok(x) => x,
                Err(e) => {
                    return Err(e);
                },
            };
            match subst_at(*q, i, arg, fuel) {
                Ok(nq) => Ok(Val::Dt(k, Box::new(np), Box::new(nq))),
                Err(e) => Err(e),
            }
        },
        Val::Pair(a, b) => {
            let na = match subst_at(*a, i, arg, fuel) {
                Ok(x) => x,
                Err(e) => {
                    return Err(e);
                },
            };
            match subst_at(*b, i, arg, fuel) {
                Ok(nb) => Ok(Val::Pair(Box::new(na), Box::new(nb))),
                Err(e) => Err(e),
            }
        },
        Val::Sum(vs) => match subst_variants_at(vs, i, arg, fuel) {
            Ok(nvs) => Ok(Val::Sum(nvs)),
            Err(e) => Err(e),
        },
        Val::Cons(lbl, p) => match subst_at(*p, i, arg, fuel) {
            Ok(np) => Ok(Val::Cons(lbl, Box::new(np))),
            Err(e) => Err(e),
        },
        Val::Neut(n) => subst_neut_at(n, i, arg, fuel),
    }
}

fn subst_variants_at(vs: Variants, i: usize, arg: &Val, fuel: usize) -> (r: Result<
    Variants,
    Fatal,
>)
    ensures
        r == subst_variants_spec(vs, i as nat, *arg, fuel as nat),
    decreases fuel, variants_size(vs), 1int,
{
    match vs {
        Variants::Nil => Ok(Variants::Nil),
        Variants::Cons(lbl, p, rest) => {
            let np = match subst_at(*p, i, arg, fuel) {
                Ok(x) => x,
                Err(e) => {
                    return Err(e);
                },
            };
            match subst_variants_at(*rest, i, arg, fuel) {
                Ok(nrest) => Ok(Variants::Cons(lbl, Box::new(np), Box::new(nrest))),
                Err(e) => Err(e),
            }
        },
    }
}

fn subst_neut_at(n: Neutral, i: usize, arg: &Val, fuel: usize) -> (r: Result<Val, Fatal>)
    ensures
        r == subst_neut_spec(n, i as nat, *arg, fuel as nat),
    decreases fuel, neut_size(n), 2int,
{
    match n {
        Neutral::Gen(g) => match g {
            Some(j) => if j.0 == i {
                Ok(arg.clone())
            } else {
                Ok(Val::Neut(Neutral::Gen(Some(j))))
            },
            None => Ok(Val::Neut(Neutral::Gen(None))),
        },
        Neutral::Ref(gi) => Ok(Val::Neut(Neutral::Ref(gi))),
        Neutral::Meta(mi) => Ok(Val::Neut(Neutral::Meta(mi))),
        Neutral::App(f, a) => {
            let nf = match subst_neut_at(*f, i, arg, fuel) {
                Ok(x) => x,
                Err(e) => {
                    return Err(e);
                },
            };
            let na = match subst_at(*a, i, arg, fuel) {
                Ok(x) => x,
                Err(e) => {
                    return Err(e);
                },
            };
            vapply_at(nf, na, fuel)
        },
        Neutral::Fst(p) => match subst_neut_at(*p, i, arg, fuel) {
            Ok(np) => np.first(),
            Err(e) => Err(e),
        },
        Neutral::Snd(p) => match subst_neut_at(*p, i, arg, fuel) {
            Ok(np) => np.second(),
            Err(e) => Err(e),
        },
    }
}

/// What `lift` returns: every universe occurring in the canonical structure
/// of the value is shifted up by `levels`; stuck parts are left for later
/// reduction. Fails only when a shifted level would not be representable.
pub open spec fn lift_spec(v: Val, levels: nat) -> Result<Val, Fatal>
    decreases v,
{
    match v {
        Val::Type(l) => if l + levels <= usize::MAX {
            Ok(Val::Type((l + levels) as usize))
        } else {
            Err(Fatal::LevelOverflow)
        },
        Val::Bot => Ok(Val::Bot),
        Val::Lam(b) => match lift_spec(*b, levels) {
            Ok(nb) => Ok(Val::Lam(Box::new(nb))),
            Err(e) => Err(e),
        },
        Val::Dt(k, p, q) => match lift_spec(*p, levels) {
            Ok(np) => match lift_spec(*q, levels) {
                Ok(nq) => Ok(Val::Dt(k, Box::new(np), Box::new(nq))),
                Err(e) => Err(e),
            },
            Err(e) => Err(e),
        },
        Val::Pair(a, b) => match lift_spec(*a, levels) {
            Ok(na) => match lift_spec(*b, levels) {
                Ok(nb) => Ok(Val::Pair(Box::new(na), Box::new(nb))),
                Err(e) => Err(e),
            },
            Err(e) => Err(e),
        },
        Val::Sum(vs) => match lift_variants_spec(vs, levels) {
            Ok(nvs) => Ok(Val::Sum(nvs)),
            Err(e) => Err(e),
        },
        Val::Cons(lbl, p) => match lift_spec(*p, levels) {
            Ok(np) => Ok(Val::Cons(lbl, Box::new(np))),
            Err(e) => Err(e),
        },
        Val::Neut(n) => Ok(Val::Neut(n)),
    }
}

/// Universe shift under every payload type of a variant list.
pub open spec fn lift_variants_spec(vs: Variants, levels: nat) -> Result<Variants, Fatal>
    decreases vs,
{
    match vs {
        Variants::Nil => Ok(Variants::Nil),
        Variants::Cons(lbl, p, rest) => match lift_spec(*p, levels) {
            Ok(np) => match lift_variants_spec(*rest, levels) {
                Ok(nrest) => Ok(Variants::Cons(lbl, Box::new(np), Box::new(nrest))),
                Err(e) => Err(e),
            },
            Err(e) => Err(e),
        },
    }
}

fn lift_at(v: Val, levels: usize) -> (r: Result<Val, Fatal>)
    ensures
        r == lift_spec(v, levels as nat),
    decreases v,
{
    match v {
        Val::Type(l) => match l.checked_add(levels) {
            Some(nl) => Ok(Val::Type(nl)),
            None => Err(Fatal::LevelOverflow),
        },
        Val::Bot => Ok(Val::Bot),
        Val::Lam(b) => match lift_at(*b, levels) {
            Ok(nb) => Ok(Val::Lam(Box::new(nb))),
            Err(e) => Err(e),
        },
        Val::Dt(k, p, q) => {
            let np = match lift_at(*p, levels) {
                Ok(x) => x,
                Err(e) => {
                    return Err(e);
                },
            };
            match lift_at(*q, levels) {
                Ok(nq) => Ok(Val::Dt(k, Box::new(np), Box::new(nq))),
                Err(e) => Err(e),
            }
        },
        Val::Pair(a, b) => {
            let na = match lift_at(*a, levels) {
                Ok(x) => x,
                Err(e) => {
                    return Err(e);
                },
            };
            match lift_at(*b, levels) {
                Ok(nb) => Ok(Val::Pair(Box::new(na), Box::new(nb))),
                Err(e) => Err(e),
            }
        },
        Val::Sum(vs) => match lift_variants_at(vs, levels) {
            Ok(nvs) => Ok(Val::Sum(nvs)),
            Err(e) => Err(e),
        },
        Val::Cons(lbl, p) => match lift_at(*p, levels) {
            Ok(np) => Ok(Val::Cons(lbl, Box::new(np))),
            Err(e) => Err(e),
        },
        Val::Neut(n) => Ok(Val::Neut(n)),
    }
}

fn lift_variants_at(vs: Variants, levels: usize) -> (r: Result<Variants, Fatal>)
    ensures
        r == lift_variants_spec(vs, levels as nat),
    decreases vs,
{
    match vs {
        Variants::Nil => Ok(Variants::Nil),
        Variants::Cons(lbl, p, rest) => {
            let np = match lift_at(*p, levels) {
                Ok(x) => x,
                Err(e) => {
                    return Err(e);
                },
            };
            match lift_variants_at(*rest, levels) {
                Ok(nrest) => Ok(Variants::Cons(lbl, Box::new(np), Box::new(nrest))),
                Err(e) => Err(e),
            }
        },
    }
}

/// Equality of values: structural, with labels compared by their text.
/// Spans never occur in values, so this is semantic equality of the shapes
/// the evaluator can produce.
pub open spec fn val_eq_spec(a: Val, b: Val) -> bool
    decreases a,
{
    match (a, b) {
        (Val::Type(l1), Val::Type(l2)) => l1 == l2,
        (Val::Bot, Val::Bot) => true,
        (Val::Lam(b1), Val::Lam(b2)) => val_eq_spec(*b1, *b2),
        (Val::Dt(k1, p1, q1), Val::Dt(k2, p2, q2)) => k1 == k2 && val_eq_spec(*p1, *p2)
            && val_eq_spec(*q1, *q2),
        (Val::Pair(a1, b1), Val::Pair(a2, b2)) => val_eq_spec(*a1, *a2) && val_eq_spec(*b1, *b2),
        (Val::Sum(v1), Val::Sum(v2)) => variants_eq_spec(v1, v2),
        (Val::Cons(l1, p1), Val::Cons(l2, p2)) => l1 == l2 && val_eq_spec(*p1, *p2),
        (Val::Neut(n1), Val::Neut(n2)) => neut_eq_spec(n1, n2),
        _ => false,
    }
}

/// Equality of variant lists: same labels with equal payload types, in the
/// same order.
pub open spec fn variants_eq_spec(a: Variants, b: Variants) -> bool
    decreases a,
{
    match (a, b) {
        (Variants::Nil, Variants::Nil) => true,
        (Variants::Cons(l1, p1, r1), Variants::Cons(l2, p2, r2)) => l1 == l2 && val_eq_spec(
            *p1,
            *p2,
        ) && variants_eq_spec(*r1, *r2),
        _ => false,
    }
}

/// Equality of stuck values.
pub open spec fn neut_eq_spec(a: Neutral, b: Neutral) -> bool
    decreases a,
{
    match (a, b) {
        (Neutral::Gen(g1), Neutral::Gen(g2)) => g1 == g2,
        (Neutral::Ref(i1), Neutral::Ref(i2)) => i1 == i2,
        (Neutral::Meta(m1), Neutral::Meta(m2)) => m1 == m2,
        (Neutral::App(f1, a1), Neutral::App(f2, a2)) => neut_eq_spec(*f1, *f2) && val_eq_spec(
            *a1,
            *a2,
        ),
        (Neutral::Fst(p1), Neutral::Fst(p2)) => neut_eq_spec(*p1, *p2),
        (Neutral::Snd(p1), Neutral::Snd(p2)) => neut_eq_spec(*p1, *p2),
        _ => false,
    }
}

/// Decides `val_eq_spec`, the conversion test at the heart of checking.
pub fn val_eq(a: &Val, b: &Val) -> (r: bool)
    ensures
        r == val_eq_spec(*a, *b),
    decreases a,
{
    match (a, b) {
        (Val::Type(l1), Val::Type(l2)) => *l1 == *l2,
        (Val::Bot, Val::Bot) => true,
        (Val::Lam(b1), Val::Lam(b2)) => val_eq(b1, b2),
        (Val::Dt(k1, p1, q1), Val::Dt(k2, p2, q2)) => {
            let kinds = match (k1, k2) {
                (DtKind::Pi, DtKind::Pi) => true,
                (DtKind::Sigma, DtKind::Sigma) => true,
                _ => false,
            };
            kinds && val_eq(p1, p2) && val_eq(q1, q2)
        },
        (Val::Pair(a1, b1), Val::Pair(a2, b2)) => val_eq(a1, a2) && val_eq(b1, b2),
        (Val::Sum(v1), Val::Sum(v2)) => variants_eq(v1, v2),
        (Val::Cons(l1, p1), Val::Cons(l2, p2)) => text_eq(l1, l2) && val_eq(p1, p2),
        (Val::Neut(n1), Val::Neut(n2)) => neut_eq(n1, n2),
        _ => false,
    }
}

/// Decides `variants_eq_spec`.
pub fn variants_eq(a: &Variants, b: &Variants) -> (r: bool)
    ensures
        r == variants_eq_spec(*a, *b),
    decreases a,
{
    match (a, b) {
        (Variants::Nil, Variants::Nil) => true,
        (Variants::Cons(l1, p1, r1), Variants::Cons(l2, p2, r2)) => text_eq(l1, l2) && val_eq(p1, p2)
            && variants_eq(r1, r2),
        _ => false,
    }
}

/// Decides `neut_eq_spec`.
pub fn neut_eq(a: &Neutral, b: &Neutral) -> (r: bool)
    ensures
        r == neut_eq_spec(*a, *b),
    decreases a,
{
    match (a, b) {
        (Neutral::Gen(g1), Neutral::Gen(g2)) => match (g1, g2) {
            (None, None) => true,
            (Some(d1), Some(d2)) => d1.0 == d2.0,
            _ => false,
        },
        (Neutral::Ref(i1), Neutral::Ref(i2)) => i1.0 == i2.0,
        (Neutral::Meta(m1), Neutral::Meta(m2)) => m1.0 == m2.0,
        (Neutral::App(f1, a1), Neutral::App(f2, a2)) => neut_eq(f1, f2) && val_eq(a1, a2),
        (Neutral::Fst(p1), Neutral::Fst(p2)) => neut_eq(p1, p2),
        (Neutral::Snd(p1), Neutral::Snd(p2)) => neut_eq(p1, p2),
        _ => false,
    }
}

/// What `attach_dbi` returns: a generated variable re-tagged with the
/// referencing occurrence's own index, anything else kept as stored.
pub open spec fn attach_spec(v: Val, dbi: DBI) -> Val {
    match v {
        Val::Neut(Neutral::Gen(Some(_))) => Val::Neut(Neutral::Gen(Some(dbi))),
        _ => v,
    }
}

/// The universe level of a value read as a type: a universe lies one level
/// above itself, a dependent type or pair combines its components, and
/// values without universes inside sit at level 0.
pub open spec fn level_spec(v: Val) -> nat
    decreases v,
{
    match v {
        Val::Type(l) => (l + 1) as nat,
        Val::Bot => 0,
        Val::Lam(b) => level_spec(*b),
        Val::Dt(_, p, q) => if level_spec(*p) < level_spec(*q) {
            level_spec(*q)
        } else {
            level_spec(*p)
        },
        Val::Pair(a, b) => if level_spec(*a) < level_spec(*b) {
            level_spec(*b)
        } else {
            level_spec(*a)
        },
        Val::Sum(vs) => variants_level_spec(vs),
        Val::Cons(_, p) => level_spec(*p),
        Val::Neut(_) => 0,
    }
}

/// The largest level among a variant list's payload types.
pub open spec fn variants_level_spec(vs: Variants) -> nat
    decreases vs,
{
    match vs {
        Variants::Nil => 0,
        Variants::Cons(_, p, rest) => if level_spec(*p) < variants_level_spec(*rest) {
            variants_level_spec(*rest)
        } else {
            level_spec(*p)
        },
    }
}

/// Whether a value is a type by its head form.
pub open spec fn is_type_spec(v: Val) -> bool {
    match v {
        Val::Type(_) => true,
        Val::Bot => true,
        Val::Dt(_, _, _) => true,
        Val::Sum(_) => true,
        _ => false,
    }
}

impl Val {
    /// The empty-type value.
    pub fn bot() -> (r: Self)
        ensures
            r == Val::Bot,
    {
        Val::Bot
    }

    /// A bound or generated variable at a de Bruijn index.
    pub fn var(index: DBI) -> (r: Self)
        ensures
            r == Val::Neut(Neutral::Gen(Some(index))),
    {
        Val::Neut(Neutral::Gen(Some(index)))
    }

    /// The opaque generated value standing for a postulate.
    pub fn postulate() -> (r: Self)
        ensures
            r == Val::Neut(Neutral::Gen(None::<DBI>)),
    {
        Val::Neut(Neutral::Gen(None))
    }

    /// A function value from its body.
    pub fn lam(body: Self) -> (r: Self)
        ensures
            r == Val::Lam(Box::new(body)),
    {
        Val::Lam(Box::new(body))
    }

    /// A constructor value wrapping a payload under a label.
    pub fn cons(label: Text, payload: Self) -> (r: Self)
        ensures
            r == Val::Cons(label, Box::new(payload)),
    {
        Val::Cons(label, Box::new(payload))
    }

    /// A folded reference into the meta store.
    pub fn meta(index: MI) -> (r: Self)
        ensures
            r == Val::Neut(Neutral::Meta(index)),
    {
        Val::Neut(Neutral::Meta(index))
    }

    /// A folded reference into the global context.
    pub fn glob(index: GI) -> (r: Self)
        ensures
            r == Val::Neut(Neutral::Ref(index)),
    {
        Val::Neut(Neutral::Ref(index))
    }

    pub fn pair(first: Self, second: Self) -> (r: Self)
        ensures
            r == Val::Pair(Box::new(first), Box::new(second)),
    {
        Val::Pair(Box::new(first), Box::new(second))
    }

    pub fn dependent_type(kind: DtKind, param_type: Self, ret_type: Self) -> (r: Self)
        ensures
            r == Val::Dt(kind, Box::new(param_type), Box::new(ret_type)),
    {
        Val::Dt(kind, Box::new(param_type), Box::new(ret_type))
    }

    /// Beta reduction on values, with the stuck-deepening rule on neutrals.
    pub fn apply(self, arg: Val) -> (r: Result<Val, Fatal>)
        ensures
            r == vapply_spec(self, arg, FUEL as nat),
            self matches Val::Neut(n) ==> r == Ok::<Val, Fatal>(
                Val::Neut(Neutral::App(Box::new(n), Box::new(arg))),
            ),
    {
        vapply_at(self, arg, FUEL)
    }

    /// As `apply`, for callers that hold the function by reference.
    pub fn apply_borrow(&self, arg: Val) -> (r: Result<Val, Fatal>)
        ensures
            r == vapply_spec(*self, arg, FUEL as nat),
    {
        vapply_at(self.clone(), arg, FUEL)
    }

    /// First projection on values, with the stuck-deepening rule.
    pub fn first(self) -> (r: Result<Val, Fatal>)
        ensures
            r == vfirst_spec(self),
            self matches Val::Neut(n) ==> r == Ok::<Val, Fatal>(
                Val::Neut(Neutral::Fst(Box::new(n))),
            ),
    {
        match self {
            Val::Pair(a, _) => Ok(*a),
            Val::Neut(n) => Ok(Val::Neut(Neutral::Fst(Box::new(n)))),
            _ => Err(Fatal::BadProj),
        }
    }

    /// Second projection on values, with the stuck-deepening rule.
    pub fn second(self) -> (r: Result<Val, Fatal>)
        ensures
            r == vsecond_spec(self),
            self matches Val::Neut(n) ==> r == Ok::<Val, Fatal>(
                Val::Neut(Neutral::Snd(Box::new(n))),
            ),
    {
        match self {
            Val::Pair(_, b) => Ok(*b),
            Val::Neut(n) => Ok(Val::Neut(Neutral::Snd(Box::new(n)))),
            _ => Err(Fatal::BadProj),
        }
    }

    /// Shifts every universe level in the value up by `levels`.
    pub fn lift(self, levels: usize) -> (r: Result<Val, Fatal>)
        ensures
            r == lift_spec(self, levels as nat),
    {
        lift_at(self, levels)
    }

    /// Re-tags a value fetched from the local context with the de Bruijn
    /// index of the referencing occurrence: a generated variable takes the
    /// occurrence's own index, anything else is kept as stored.
    pub fn attach_dbi(self, dbi: DBI) -> (r: Self)
        ensures
            r == attach_spec(self, dbi),
    {
        match self {
            Val::Neut(Neutral::Gen(Some(_))) => Val::Neut(Neutral::Gen(Some(dbi))),
            other => other,
        }
    }

    /// The universe level of the value read as a type, or nothing when it
    /// is not representable.
    pub fn level(&self) -> (r: Option<usize>)
        ensures
            r matches Some(l) ==> l == level_spec(*self) && level_spec(*self) <= usize::MAX,
            r is None ==> level_spec(*self) > usize::MAX,
        decreases self,
    {
        match self {
            Val::Type(l) => l.checked_add(1),
            Val::Bot => Some(0),
            Val::Lam(b) => b.level(),
            Val::Dt(_, p, q) => match (p.level(), q.level()) {
                (Some(lp), Some(lq)) => Some(if lp < lq { lq } else { lp }),
                _ => None,
            },
            Val::Pair(a, b) => match (a.level(), b.level()) {
                (Some(la), Some(lb)) => Some(if la < lb { lb } else { la }),
                _ => None,
            },
            Val::Sum(vs) => vs.level(),
            Val::Cons(_, p) => p.level(),
            Val::Neut(_) => Some(0),
        }
    }

    /// Whether the value is a type by its head: a universe, the empty
    /// type, a dependent type or a sum of variants.
    pub fn is_type(&self) -> (r: bool)
        ensures
            r == is_type_spec(*self),
    {
        match self {
            Val::Type(_) => true,
            Val::Bot => true,
            Val::Dt(_, _, _) => true,
            Val::Sum(_) => true,
            _ => false,
        }
    }

    /// Whether the value is a universe.
    pub fn is_universe(&self) -> (r: bool)
        ensures
            r == (self matches Val::Type(_)),
    {
        match self {
            Val::Type(_) => true,
            _ => false,
        }
    }

    pub fn into_info(self, syntax_info: SyntaxInfo) -> (r: ValInfo)
        ensures
            r == (ValInfo { ast: self, info: syntax_info }),
    {
        ValInfo::new(self, syntax_info)
    }
}

impl Variants {
    /// The largest level among the payload types.
    pub fn level(&self) -> (r: Option<usize>)
        ensures
            r matches Some(l) ==> l == variants_level_spec(*self) && variants_level_spec(*self)
                <= usize::MAX,
            r is None ==> variants_level_spec(*self) > usize::MAX,
        decreases self,
    {
        match self {
            Variants::Nil => Some(0),
            Variants::Cons(_, p, rest) => match (p.level(), rest.level()) {
                (Some(lp), Some(lr)) => Some(if lp < lr { lr } else { lp }),
                _ => None,
            },
        }
    }
}

impl ValInfo {
    pub fn new(ast: Val, info: SyntaxInfo) -> (r: Self)
        ensures
            r == (ValInfo { ast, info }),
    {
        Self { ast, info }
    }

    /// Rebuilds the value in place, keeping the span.
    pub fn map_ast<F: FnOnce(Val) -> Val>(self, f: F) -> (r: Self)
        requires
            f.requires((self.ast,)),
        ensures
            f.ensures((self.ast,), r.ast),
            r.info == self.info,
    {
        let info = self.info;
        Self::new(f(self.ast), info)
    }

    pub fn syntax_info(&self) -> (r: SyntaxInfo)
        ensures
            r == self.info,
    {
        self.info
    }
}

} // verus!
