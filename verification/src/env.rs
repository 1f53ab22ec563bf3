use vstd::prelude::*;
use std::rc::Rc;
use crate::term::Term;

verus! {

/// A persistent association from de Bruijn position to term, shared by
/// reference: extending it for a closure instantiation builds a new head
/// node and never mutates the original, so many closures may share a common
/// suffix. Position 0 is the most recently added entry.
#[derive(Debug, PartialEq, Eq)]
pub enum DbiEnv_ {
    Nil,
    Cons(Rc<DbiEnv_>, Term),
}

/// The shared handle under which environments are captured and extended.
pub type DbiEnv = Rc<DbiEnv_>;

/// The entries of an environment, most recent first.
pub open spec fn env_seq(e: DbiEnv_) -> Seq<Term>
    decreases e,
{
    match e {
        DbiEnv_::Nil => Seq::empty(),
        DbiEnv_::Cons(rest, t) => seq![t] + env_seq(*rest),
    }
}

impl DbiEnv_ {
    /// The empty environment.
    pub fn nil() -> (r: Self)
        ensures
            env_seq(r) == Seq::<Term>::empty(),
    {
        DbiEnv_::Nil
    }

    /// Extends a shared environment by one entry without touching it.
    pub fn cons_rc(env: DbiEnv, term: Term) -> (r: Self)
        ensures
            env_seq(r) == seq![term] + env_seq(*env),
    {
        DbiEnv_::Cons(env, term)
    }

    /// Walks `n` steps: the entry bound `n` binders out, if there is one.
    pub fn project(&self, n: usize) -> (r: Option<&Term>)
        ensures
            match r {
                Some(t) => n < env_seq(*self).len() && *t == env_seq(*self)[n as int],
                None => n >= env_seq(*self).len(),
            },
        decreases self,
    {
        match self {
            DbiEnv_::Nil => None,
            DbiEnv_::Cons(rest, t) => {
                if n == 0 {
                    Some(t)
                } else {
                    rest.project(n - 1)
                }
            },
        }
    }
}

} // verus!
