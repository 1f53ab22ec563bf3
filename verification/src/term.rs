use vstd::prelude::*;
use std::rc::Rc;
use crate::base::{DBI, DtKind, Fatal, Level, ParamKind, SyntaxInfo, FUEL};
use crate::env::{DbiEnv, DbiEnv_, env_seq};

verus! {

/// A core term paired with its source span.
#[derive(Debug, PartialEq, Eq)]
pub struct TermInfo {
    pub ast: Term,
    pub info: SyntaxInfo,
}

/// Canonical core syntax: every constructor is a non-redex, and the stuck
/// forms live under `Neut`.
#[derive(Debug, PartialEq, Eq)]
pub enum Term {
    /// Type universe at a level.
    Type(Level),
    /// The empty type.
    Bot,
    /// Function value.
    Lam(Closure),
    /// Dependent types; the parameter's visibility is kept because it
    /// affects elaboration of surface applications.
    Dt(ParamKind, DtKind, Closure),
    /// Sigma instance.
    Pair(Box<Term>, Box<Term>),
    /// Stuck term.
    Neut(Neutral),
}

/// Irreducible because of the presence of a generated value.
#[derive(Debug, PartialEq, Eq)]
pub enum Neutral {
    /// Local variable by de Bruijn index; `None` is a postulated value
    /// with no computational content.
    Gen(Option<DBI>),
    /// Stuck function application.
    App(Box<Neutral>, Box<Term>),
    /// Stuck projection of the first element of a pair.
    Fst(Box<Neutral>),
    /// Stuck projection of the second element of a pair.
    Snd(Box<Neutral>),
}

/// A closure with its parameter type explicitly specified.
#[derive(Debug, PartialEq, Eq)]
pub struct Closure {
    pub param_type: Box<Term>,
    pub body: ClosureBody,
}

/// The instantiatable part of a closure: an unevaluated body together with
/// the environment snapshot it captured.
#[derive(Debug, PartialEq, Eq)]
pub struct ClosureBody {
    pub body: Box<TermInfo>,
    pub env: DbiEnv,
}

impl Clone for Term {
    fn clone(&self) -> (r: Self)
        ensures
            r == *self,
        decreases self,
    {
        match self {
            Term::Type(l) => Term::Type(*l),
            Term::Bot => Term::Bot,
            Term::Lam(c) => Term::Lam(c.clone()),
            Term::Dt(p, k, c) => Term::Dt(*p, *k, c.clone()),
            Term::Pair(a, b) => Term::Pair(Box::new((**a).clone()), Box::new((**b).clone())),
            Term::Neut(n) => Term::Neut(n.clone()),
        }
    }
}

impl Clone for Neutral {
    fn clone(&self) -> (r: Self)
        ensures
            r == *self,
        decreases self,
    {
        match self {
            Neutral::Gen(g) => Neutral::Gen(*g),
            Neutral::App(f, a) => Neutral::App(
                Box::new((**f).clone()),
                Box::new((**a).clone()),
            ),
            Neutral::Fst(p) => Neutral::Fst(Box::new((**p).clone())),
            Neutral::Snd(p) => Neutral::Snd(Box::new((**p).clone())),
        }
    }
}

impl Clone for Closure {
    fn clone(&self) -> (r: Self)
        ensures
            r == *self,
        decreases self,
    {
        Closure { param_type: Box::new((*self.param_type).clone()), body: self.body.clone() }
    }
}

impl Clone for ClosureBody {
    fn clone(&self) -> (r: Self)
        ensures
            r == *self,
        decreases self,
    {
        ClosureBody { body: Box::new((*self.body).clone()), env: self.env.clone() }
    }
}

impl Clone for TermInfo {
    fn clone(&self) -> (r: Self)
        ensures
            r == *self,
        decreases self,
    {
        TermInfo { ast: self.ast.clone(), info: self.info }
    }
}

/// Structural size of a term, the measure that bounds reduction between
/// two beta or projection steps.
pub open spec fn term_size(t: Term) -> nat
    decreases t,
{
    match t {
        Term::Pair(a, b) => 1 + term_size(*a) + term_size(*b),
        Term::Neut(n) => 1 + neutral_size(n),
        _ => 1,
    }
}

/// Structural size of a neutral term.
pub open spec fn neutral_size(n: Neutral) -> nat
    decreases n,
{
    match n {
        Neutral::Gen(_) => 1,
        Neutral::App(f, a) => 1 + neutral_size(*f) + term_size(*a),
        Neutral::Fst(p) => 1 + neutral_size(*p),
        Neutral::Snd(p) => 1 + neutral_size(*p),
    }
}

/// What `first` returns: the first component of a pair, a deeper stuck
/// projection on a neutral, and an invariant failure on anything else.
pub open spec fn first_spec(t: Term) -> Result<Term, Fatal> {
    match t {
        Term::Pair(a, _) => Ok(*a),
        Term::Neut(n) => Ok(Term::Neut(Neutral::Fst(Box::new(n)))),
        _ => Err(Fatal::BadProj),
    }
}

/// What `second` returns, dual to `first_spec`.
pub open spec fn second_spec(t: Term) -> Result<Term, Fatal> {
    match t {
        Term::Pair(_, b) => Ok(*b),
        Term::Neut(n) => Ok(Term::Neut(Neutral::Snd(Box::new(n)))),
        _ => Err(Fatal::BadProj),
    }
}

/// What `apply` returns: beta reduction on a function value, a deeper stuck
/// application on a neutral, and an invariant failure on anything else.
/// One unit of fuel pays for each beta step.
pub open spec fn apply_spec(f: Term, arg: Term, fuel: nat) -> Result<Term, Fatal>
    decreases fuel, 0nat, 2int,
{
    match f {
        Term::Lam(c) => if fuel == 0 {
            Err(Fatal::Depth)
        } else {
            instantiate_spec(c.body, arg, (fuel - 1) as nat)
        },
        Term::Neut(n) => Ok(Term::Neut(Neutral::App(Box::new(n), Box::new(arg)))),
        _ => Err(Fatal::BadApply),
    }
}

/// What `instantiate` returns: the closure body reduced under its captured
/// environment extended with the argument at position 0.
pub open spec fn instantiate_spec(cb: ClosureBody, arg: Term, fuel: nat) -> Result<Term, Fatal>
    decreases fuel, term_size(cb.body.ast) + 1, 0int,
{
    reduce_spec(cb.body.ast, DbiEnv_::Cons(cb.env, arg), fuel)
}

/// What `reduce` returns: substitution-driven normalization of a term
/// against an environment. Pairs reduce componentwise, neutrals resolve
/// their leaves, and everything else is already canonical.
pub open spec fn reduce_spec(t: Term, env: DbiEnv_, fuel: nat) -> Result<Term, Fatal>
    decreases fuel, term_size(t), 0int,
{
    match t {
        Term::Pair(a, b) => match reduce_spec(*a, env, fuel) {
            Ok(ra) => match reduce_spec(*b, env, fuel) {
                Ok(rb) => Ok(Term::Pair(Box::new(ra), Box::new(rb))),
                Err(e) => Err(e),
            },
            Err(e) => Err(e),
        },
        Term::Neut(n) => neutral_reduce_spec(n, env, fuel),
        _ => Ok(t),
    }
}

/// What `Neutral::reduce` returns: a generated variable resolves through the
/// environment when present (an absent entry stays an opaque generated
/// variable, which is how postulates survive), and eliminations reduce their
/// substructure and then re-apply the corresponding eliminator.
pub open spec fn neutral_reduce_spec(n: Neutral, env: DbiEnv_, fuel: nat) -> Result<Term, Fatal>
    decreases fuel, neutral_size(n), 1int,
{
    match n {
        Neutral::Gen(g) => match g {
            None => Ok(Term::Neut(Neutral::Gen(None))),
            Some(dbi) => if dbi.0 < env_seq(env).len() {
                Ok(env_seq(env)[dbi.0 as int])
            } else {
                Ok(Term::Neut(Neutral::Gen(Some(dbi))))
            },
        },
        Neutral::App(f, a) => match reduce_spec(*a, env, fuel) {
            Ok(arg) => match neutral_reduce_spec(*f, env, fuel) {
                Ok(fun) => apply_spec(fun, arg, fuel),
                Err(e) => Err(e),
            },
            Err(e) => Err(e),
        },
        Neutral::Fst(p) => match neutral_reduce_spec(*p, env, fuel) {
            Ok(pv) => match first_spec(pv) {
                Ok(f) => if fuel == 0 {
                    Err(Fatal::Depth)
                } else {
                    reduce_spec(f, env, (fuel - 1) as nat)
                },
                Err(e) => Err(e),
            },
            Err(e) => Err(e),
        },
        Neutral::Snd(p) => match neutral_reduce_spec(*p, env, fuel) {
            Ok(pv) => match second_spec(pv) {
                Ok(s) => if fuel == 0 {
                    Err(Fatal::Depth)
                } else {
                    reduce_spec(s, env, (fuel - 1) as nat)
                },
                Err(e) => Err(e),
            },
            Err(e) => Err(e),
        },
    }
}

/// The stuck-elimination laws: on a neutral term every eliminator deepens
/// the stuck form instead of failing, whatever the step bound — applying a
/// neutral gives the stuck application, and the projections give the stuck
/// projections, never a fatal condition.
pub proof fn lemma_stuck_elimination(n: Neutral, a: Term, fuel: nat)
    ensures
        apply_spec(Term::Neut(n), a, fuel) == Ok::<Term, Fatal>(
            Term::Neut(Neutral::App(Box::new(n), Box::new(a))),
        ),
        first_spec(Term::Neut(n)) == Ok::<Term, Fatal>(Term::Neut(Neutral::Fst(Box::new(n)))),
        second_spec(Term::Neut(n)) == Ok::<Term, Fatal>(Term::Neut(Neutral::Snd(Box::new(n)))),
{
}

impl TermInfo {
    pub fn new(ast: Term, info: SyntaxInfo) -> (r: Self)
        ensures
            r == (TermInfo { ast, info }),
    {
        Self { ast, info }
    }

    /// Reduces the carried term; the span is only diagnostic and is dropped.
    pub fn reduce(self, env: DbiEnv) -> (r: Result<Term, Fatal>)
        ensures
            r == reduce_spec(self.ast, *env, FUEL as nat),
    {
        self.ast.reduce(env)
    }

    /// As `reduce`, for callers that only hold the term by reference.
    pub fn reduce_cloned(&self, env: DbiEnv) -> (r: Result<Term, Fatal>)
        ensures
            r == reduce_spec(self.ast, *env, FUEL as nat),
    {
        self.ast.clone().reduce(env)
    }
}

fn apply_at(f: Term, arg: Term, fuel: usize) -> (r: Result<Term, Fatal>)
    ensures
        r == apply_spec(f, arg, fuel as nat),
    decreases fuel, 0nat, 2int,
{
    match f {
        Term::Lam(c) => if fuel == 0 {
            Err(Fatal::Depth)
        } else {
            instantiate_at(c.body, arg, fuel - 1)
        },
        Term::Neut(n) => Ok(Term::Neut(Neutral::App(Box::new(n), Box::new(arg)))),
        _ => Err(Fatal::BadApply),
    }
}

fn instantiate_at(cb: ClosureBody, arg: Term, fuel: usize) -> (r: Result<Term, Fatal>)
    ensures
        r == instantiate_spec(cb, arg, fuel as nat),
    decreases fuel, term_size(cb.body.ast) + 1, 0int,
{
    let ClosureBody { body, env } = cb;
    reduce_at(body.ast, Rc::new(DbiEnv_::Cons(env, arg)), fuel)
}

fn reduce_at(t: Term, env: DbiEnv, fuel: usize) -> (r: Result<Term, Fatal>)
    ensures
        r == reduce_spec(t, *env, fuel as nat),
    decreases fuel, term_size(t), 0int,
{
    match t {
        Term::Pair(a, b) => {
            let ra = match reduce_at(*a, env.clone(), fuel) {
                Ok(v) => v,
                Err(e) => {
                    return Err(e);
                },
            };
            let rb = match reduce_at(*b, env, fuel) {
                Ok(v) => v,
                Err(e) => {
                    return Err(e);
                },
            };
            Ok(Term::Pair(Box::new(ra), Box::new(rb)))
        },
        Term::Neut(n) => neutral_reduce_at(n, env, fuel),
        other => Ok(other),
    }
}

fn neutral_reduce_at(n: Neutral, env: DbiEnv, fuel: usize) -> (r: Result<Term, Fatal>)
    ensures
        r == neutral_reduce_spec(n, *env, fuel as nat),
    decreases fuel, neutral_size(n), 1int,
{
    match n {
        Neutral::Gen(g) => match g {
            None => Ok(Term::mock()),
            Some(dbi) => match env.project(dbi.0) {
                Some(t) => Ok(t.clone()),
                None => Ok(Term::gen(dbi)),
            },
        },
        Neutral::App(f, a) => {
            let arg = match reduce_at(*a, env.clone(), fuel) {
                Ok(v) => v,
                Err(e) => {
                    return Err(e);
                },
            };
            let fun = match neutral_reduce_at(*f, env, fuel) {
                Ok(v) => v,
                Err(e) => {
                    return Err(e);
                },
            };
            apply_at(fun, arg, fuel)
        },
        Neutral::Fst(p) => {
            let pv = match neutral_reduce_at(*p, env.clone(), fuel) {
                Ok(v) => v,
                Err(e) => {
                    return Err(e);
                },
            };
            let f = match pv.first() {
                Ok(v) => v,
                Err(e) => {
                    return Err(e);
                },
            };
            if fuel == 0 {
                Err(Fatal::Depth)
            } else {
                reduce_at(f, env, fuel - 1)
            }
        },
        Neutral::Snd(p) => {
            let pv = match neutral_reduce_at(*p, env.clone(), fuel) {
                Ok(v) => v,
                Err(e) => {
                    return Err(e);
                },
            };
            let s = match pv.second() {
                Ok(v) => v,
                Err(e) => {
                    return Err(e);
                },
            };
            if fuel == 0 {
                Err(Fatal::Depth)
            } else {
                reduce_at(s, env, fuel - 1)
            }
        },
    }
}

impl Term {
    /// Beta reduction during evaluation. On a stuck function it deepens the
    /// stuck application instead of failing, never spending any fuel.
    pub fn apply(self, arg: Term) -> (r: Result<Term, Fatal>)
        ensures
            r == apply_spec(self, arg, FUEL as nat),
            self matches Term::Neut(n) ==> r == Ok::<Term, Fatal>(
                Term::Neut(Neutral::App(Box::new(n), Box::new(arg))),
            ),
    {
        apply_at(self, arg, FUEL)
    }

    /// First projection during evaluation, with the same stuck-deepening rule.
    pub fn first(self) -> (r: Result<Term, Fatal>)
        ensures
            r == first_spec(self),
            self matches Term::Neut(n) ==> r == Ok::<Term, Fatal>(
                Term::Neut(Neutral::Fst(Box::new(n))),
            ),
    {
        match self {
            Term::Pair(a, _) => Ok(*a),
            Term::Neut(n) => Ok(Term::Neut(Neutral::Fst(Box::new(n)))),
            _ => Err(Fatal::BadProj),
        }
    }

    /// Second projection during evaluation, with the same stuck-deepening rule.
    pub fn second(self) -> (r: Result<Term, Fatal>)
        ensures
            r == second_spec(self),
            self matches Term::Neut(n) ==> r == Ok::<Term, Fatal>(
                Term::Neut(Neutral::Snd(Box::new(n))),
            ),
    {
        match self {
            Term::Pair(_, b) => Ok(*b),
            Term::Neut(n) => Ok(Term::Neut(Neutral::Snd(Box::new(n)))),
            _ => Err(Fatal::BadProj),
        }
    }

    /// Substitution-driven normalization against an environment.
    pub fn reduce(self, env: DbiEnv) -> (r: Result<Term, Fatal>)
        ensures
            r == reduce_spec(self, *env, FUEL as nat),
    {
        reduce_at(self, env, FUEL)
    }

    pub fn pair(first: Self, second: Self) -> (r: Self)
        ensures
            r == Term::Pair(Box::new(first), Box::new(second)),
    {
        Term::Pair(Box::new(first), Box::new(second))
    }

    pub fn gen(index: DBI) -> (r: Self)
        ensures
            r == Term::Neut(Neutral::Gen(Some(index))),
    {
        Term::Neut(Neutral::Gen(Some(index)))
    }

    /// An opaque generated value: the computational content of a postulate.
    pub fn mock() -> (r: Self)
        ensures
            r == Term::Neut(Neutral::Gen(None::<DBI>)),
    {
        Term::Neut(Neutral::Gen(None))
    }

    pub fn app(function: Neutral, arg: Term) -> (r: Self)
        ensures
            r == Term::Neut(Neutral::App(Box::new(function), Box::new(arg))),
    {
        Term::Neut(Neutral::App(Box::new(function), Box::new(arg)))
    }

    pub fn fst(pair: Neutral) -> (r: Self)
        ensures
            r == Term::Neut(Neutral::Fst(Box::new(pair))),
    {
        Term::Neut(Neutral::Fst(Box::new(pair)))
    }

    pub fn snd(pair: Neutral) -> (r: Self)
        ensures
            r == Term::Neut(Neutral::Snd(Box::new(pair))),
    {
        Term::Neut(Neutral::Snd(Box::new(pair)))
    }

    pub fn dependent_type(visib: ParamKind, kind: DtKind, closure: Closure) -> (r: Self)
        ensures
            r == Term::Dt(visib, kind, closure),
    {
        Term::Dt(visib, kind, closure)
    }

    pub fn pi(visibility: ParamKind, closure: Closure) -> (r: Self)
        ensures
            r == Term::Dt(visibility, DtKind::Pi, closure),
    {
        Self::dependent_type(visibility, DtKind::Pi, closure)
    }

    pub fn sig(visibility: ParamKind, closure: Closure) -> (r: Self)
        ensures
            r == Term::Dt(visibility, DtKind::Sigma, closure),
    {
        Self::dependent_type(visibility, DtKind::Sigma, closure)
    }

    pub fn into_info(self, syntax_info: SyntaxInfo) -> (r: TermInfo)
        ensures
            r == (TermInfo { ast: self, info: syntax_info }),
    {
        TermInfo::new(self, syntax_info)
    }
}

impl Neutral {
    /// Resolves the neutral's leaves through the environment and re-applies
    /// the eliminators along the way.
    pub fn reduce(self, env: DbiEnv) -> (r: Result<Term, Fatal>)
        ensures
            r == neutral_reduce_spec(self, *env, FUEL as nat),
    {
        neutral_reduce_at(self, env, FUEL)
    }
}

impl Closure {
    pub fn new(param_type: Term, body: ClosureBody) -> (r: Self)
        ensures
            r == (Closure { param_type: Box::new(param_type), body }),
    {
        Self { param_type: Box::new(param_type), body }
    }
}

impl ClosureBody {
    /// The normalization-by-evaluation step: extends the captured snapshot
    /// with the argument and reduces the stored body against it.
    pub fn instantiate(self, arg: Term) -> (r: Result<Term, Fatal>)
        ensures
            r == instantiate_spec(self, arg, FUEL as nat),
    {
        instantiate_at(self, arg, FUEL)
    }

    pub fn new(body: TermInfo, env: DbiEnv) -> (r: Self)
        ensures
            r == (ClosureBody { body: Box::new(body), env }),
    {
        Self { body: Box::new(body), env }
    }
}

} // verus!
