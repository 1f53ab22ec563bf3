use vstd::prelude::*;
use crate::base::{DBI, DtKind, GI, Ident, Level, MI, SyntaxInfo, UID};

verus! {

/// Abstract syntax as the desugarer hands it over: every local reference
/// carries its local de Bruijn index, every global reference its global
/// index, every meta its index into the meta store.
#[derive(Debug, PartialEq, Eq)]
pub enum Abs {
    /// Type universe at a level.
    Type(SyntaxInfo, Level),
    /// The empty type.
    Bot(SyntaxInfo),
    /// Local variable, with the unique identifier of its binder.
    Var(Ident, UID, DBI),
    /// Global variable.
    Ref(Ident, GI),
    /// Meta variable.
    Meta(Ident, MI),
    /// Lift an expression by this many universe levels.
    Lift(SyntaxInfo, u32, Box<Abs>),
    /// Constructor call; the identifier still carries its leading tag sigil.
    Cons(Ident),
    /// Application.
    App(SyntaxInfo, Box<Abs>, Box<Abs>),
    /// Dependent type: `(a -> b -> c)` desugars to
    /// `Dt(info, Pi, uid, a, Dt(info, Pi, uid, b, c))`.
    Dt(SyntaxInfo, DtKind, UID, Box<Abs>, Box<Abs>),
    /// The span is of the whole lambda, the identifier of its parameter.
    Lam(SyntaxInfo, Ident, UID, Box<Abs>),
    Pair(SyntaxInfo, Box<Abs>, Box<Abs>),
    Fst(SyntaxInfo, Box<Abs>),
    Snd(SyntaxInfo, Box<Abs>),
    /// Row-polymorphic sum of variants; recognised but not supported.
    Sum(SyntaxInfo, Vec<Abs>),
}

/// Structural size of a piece of abstract syntax: the measure for the
/// checker's recursion. The unsupported row-polymorphic form is never
/// entered, so it counts as a leaf.
pub open spec fn abs_size(a: Abs) -> nat
    decreases a,
{
    match a {
        Abs::Lift(_, _, e) => 1 + abs_size(*e),
        Abs::App(_, f, x) => 1 + abs_size(*f) + abs_size(*x),
        Abs::Dt(_, _, _, p, q) => 1 + abs_size(*p) + abs_size(*q),
        Abs::Lam(_, _, _, b) => 1 + abs_size(*b),
        Abs::Pair(_, x, y) => 1 + abs_size(*x) + abs_size(*y),
        Abs::Fst(_, p) => 1 + abs_size(*p),
        Abs::Snd(_, p) => 1 + abs_size(*p),
        _ => 1,
    }
}

/// The span of a piece of abstract syntax.
pub open spec fn abs_info_spec(a: Abs) -> SyntaxInfo {
    match a {
        Abs::Type(info, _) => info,
        Abs::Bot(info) => info,
        Abs::Var(ident, _, _) => ident.info,
        Abs::Ref(ident, _) => ident.info,
        Abs::Meta(ident, _) => ident.info,
        Abs::Lift(info, _, _) => info,
        Abs::Cons(ident) => ident.info,
        Abs::App(info, _, _) => info,
        Abs::Dt(info, _, _, _, _) => info,
        Abs::Lam(info, _, _, _) => info,
        Abs::Pair(info, _, _) => info,
        Abs::Fst(info, _) => info,
        Abs::Snd(info, _) => info,
        Abs::Sum(info, _) => info,
    }
}

impl Abs {
    pub fn syntax_info(&self) -> (r: SyntaxInfo)
        ensures
            r == abs_info_spec(*self),
    {
        match self {
            Abs::Type(info, ..) => *info,
            Abs::Bot(info) => *info,
            Abs::Var(ident, ..) => ident.info,
            Abs::Ref(ident, ..) => ident.info,
            Abs::Meta(ident, ..) => ident.info,
            Abs::Lift(info, ..) => *info,
            Abs::Cons(ident) => ident.info,
            Abs::App(info, ..) => *info,
            Abs::Dt(info, ..) => *info,
            Abs::Lam(info, ..) => *info,
            Abs::Pair(info, ..) => *info,
            Abs::Fst(info, ..) => *info,
            Abs::Snd(info, ..) => *info,
            Abs::Sum(info, ..) => *info,
        }
    }

    pub fn dependent_type(info: SyntaxInfo, kind: DtKind, name: UID, a: Self, b: Self) -> (r: Self)
        ensures
            r == Abs::Dt(info, kind, name, Box::new(a), Box::new(b)),
    {
        Abs::Dt(info, kind, name, Box::new(a), Box::new(b))
    }

    pub fn app(info: SyntaxInfo, function: Self, argument: Self) -> (r: Self)
        ensures
            r == Abs::App(info, Box::new(function), Box::new(argument)),
    {
        Abs::App(info, Box::new(function), Box::new(argument))
    }

    pub fn fst(info: SyntaxInfo, of: Self) -> (r: Self)
        ensures
            r == Abs::Fst(info, Box::new(of)),
    {
        Abs::Fst(info, Box::new(of))
    }

    pub fn snd(info: SyntaxInfo, of: Self) -> (r: Self)
        ensures
            r == Abs::Snd(info, Box::new(of)),
    {
        Abs::Snd(info, Box::new(of))
    }

    pub fn lam(whole_info: SyntaxInfo, param: Ident, name: UID, body: Self) -> (r: Self)
        ensures
            r == Abs::Lam(whole_info, param, name, Box::new(body)),
    {
        Abs::Lam(whole_info, param, name, Box::new(body))
    }

    pub fn pair(info: SyntaxInfo, first: Self, second: Self) -> (r: Self)
        ensures
            r == Abs::Pair(info, Box::new(first), Box::new(second)),
    {
        Abs::Pair(info, Box::new(first), Box::new(second))
    }

    pub fn lift(info: SyntaxInfo, lift_count: u32, expr: Self) -> (r: Self)
        ensures
            r == Abs::Lift(info, lift_count, Box::new(expr)),
    {
        Abs::Lift(info, lift_count, Box::new(expr))
    }

    pub fn pi(info: SyntaxInfo, name: UID, input: Self, output: Self) -> (r: Self)
        ensures
            r == Abs::Dt(info, DtKind::Pi, name, Box::new(input), Box::new(output)),
    {
        Self::dependent_type(info, DtKind::Pi, name, input, output)
    }

    pub fn sig(info: SyntaxInfo, name: UID, first: Self, second: Self) -> (r: Self)
        ensures
            r == Abs::Dt(info, DtKind::Sigma, name, Box::new(first), Box::new(second)),
    {
        Self::dependent_type(info, DtKind::Sigma, name, first, second)
    }
}

/// A top-level declaration in abstract syntax, tagged with the global index
/// it commits to: a signature alone, an implementation alone, or the pair.
#[derive(Debug, PartialEq, Eq)]
pub enum AbsDecl {
    /// Type signature without a body: a postulate that reserves its index.
    Sign(Abs, GI),
    /// Body without a signature: its type is inferred.
    Impl(Abs, GI),
    /// Signature and body, committed atomically as one entry.
    Both(Abs, Abs, GI),
}

/// The span of a declaration: the span of its signature if it has one, of
/// its body otherwise.
pub open spec fn decl_info_spec(d: AbsDecl) -> SyntaxInfo {
    match d {
        AbsDecl::Sign(a, _) => abs_info_spec(a),
        AbsDecl::Impl(a, _) => abs_info_spec(a),
        AbsDecl::Both(sign, _, _) => abs_info_spec(sign),
    }
}

impl AbsDecl {
    pub fn syntax_info(&self) -> (r: SyntaxInfo)
        ensures
            r == decl_info_spec(*self),
    {
        match self {
            AbsDecl::Sign(a, _) => a.syntax_info(),
            AbsDecl::Impl(a, _) => a.syntax_info(),
            AbsDecl::Both(sign, _, _) => sign.syntax_info(),
        }
    }
}

} // verus!
