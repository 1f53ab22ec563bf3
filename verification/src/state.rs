use vstd::prelude::*;
use crate::base::{DBI, GI, MI};
use crate::val::{Neutral, Val, ValInfo};

verus! {

/// A typing or value context: spans are kept for display.
pub type Gamma = Vec<ValInfo>;

/// The state of one slot of the meta-variable store.
#[derive(Debug, PartialEq, Eq)]
pub enum MetaSolution {
    /// The unique solution this meta received.
    Solved(Box<Val>),
    /// Not yet solved.
    Unsolved,
    /// Expanded away during elaboration; it must never be read again as a
    /// neutral leaf.
    Inlined,
}

impl Clone for MetaSolution {
    fn clone(&self) -> (r: Self)
        ensures
            r == *self,
    {
        match self {
            MetaSolution::Solved(v) => MetaSolution::Solved(Box::new((**v).clone())),
            MetaSolution::Unsolved => MetaSolution::Unsolved,
            MetaSolution::Inlined => MetaSolution::Inlined,
        }
    }
}

impl Default for MetaSolution {
    /// A fresh slot starts unsolved.
    fn default() -> (r: Self)
        ensures
            r == MetaSolution::Unsolved,
    {
        MetaSolution::Unsolved
    }
}

impl MetaSolution {
    pub fn solved(val: Val) -> (r: Self)
        ensures
            r == MetaSolution::Solved(Box::new(val)),
    {
        MetaSolution::Solved(Box::new(val))
    }
}

/// The elaboration state: global and local typing/value contexts plus the
/// meta store. The global arrays share one index space and grow in source
/// order; the local ones follow a strict stack discipline around binders.
#[derive(Debug)]
pub struct TCS {
    /// Global value context.
    pub env: Gamma,
    /// Local value context.
    pub local_env: Gamma,
    /// Global typing context.
    pub gamma: Gamma,
    /// Local typing context.
    pub local_gamma: Gamma,
    /// Meta variable store. Always global.
    pub meta_context: Vec<MetaSolution>,
}

/// The mathematical content of the elaboration state: each context as the
/// sequence of its entries. Judgments and the declaration checker are
/// specified as functions over this shape, which contracts can construct.
#[verifier::ext_equal]
pub struct StateV {
    pub gamma: Seq<ValInfo>,
    pub env: Seq<ValInfo>,
    pub local_gamma: Seq<ValInfo>,
    pub local_env: Seq<ValInfo>,
    pub metas: Seq<MetaSolution>,
}

impl View for TCS {
    type V = StateV;

    open spec fn view(&self) -> StateV {
        StateV {
            gamma: self.gamma@,
            env: self.env@,
            local_gamma: self.local_gamma@,
            local_env: self.local_env@,
            metas: self.meta_context@,
        }
    }
}

/// The state after one binder is entered.
pub open spec fn push_local_spec(s: StateV, ty: ValInfo, val: ValInfo) -> StateV {
    StateV { local_gamma: s.local_gamma.push(ty), local_env: s.local_env.push(val), ..s }
}

/// The state after the innermost binder is left.
pub open spec fn pop_local_spec(s: StateV) -> StateV {
    StateV { local_gamma: s.local_gamma.drop_last(), local_env: s.local_env.drop_last(), ..s }
}

/// The state after a meta receives its solution.
pub open spec fn solve_meta_spec(s: StateV, mi: MI, solution: Val) -> StateV {
    StateV { metas: s.metas.update(mi.0 as int, MetaSolution::Solved(Box::new(solution))), ..s }
}

/// The pairing invariant of the elaboration state: the typing and value
/// contexts always have the same length, globally and locally.
pub open spec fn paired(tcs: TCS) -> bool {
    tcs.gamma@.len() == tcs.env@.len() && tcs.local_gamma@.len() == tcs.local_env@.len()
}

/// How a meta store may change over time: it only grows, and an existing
/// slot either stays exactly as it is or goes from unsolved to solved. In
/// particular a solution, once installed, never changes and is never
/// retracted.
pub open spec fn metas_evolve(a: Seq<MetaSolution>, b: Seq<MetaSolution>) -> bool {
    &&& a.len() <= b.len()
    &&& forall|i: int|
        0 <= i < a.len() ==> (b[i] == a[i] || (a[i] is Unsolved && b[i] matches
        MetaSolution::Solved(_)))
}

/// The meta store evolution is reflexive: doing nothing is a legal history.
pub proof fn lemma_metas_evolve_refl(a: Seq<MetaSolution>)
    ensures
        metas_evolve(a, a),
{
}

/// The meta store evolution is transitive, so over any sequence of
/// operations each slot transitions from unsolved to solved at most once
/// and never reverts: a slot equal in the first and last store was either
/// untouched or holds the one solution it ever received.
pub proof fn lemma_metas_evolve_trans(a: Seq<MetaSolution>, b: Seq<MetaSolution>, c: Seq<
    MetaSolution,
>)
    requires
        metas_evolve(a, b),
        metas_evolve(b, c),
    ensures
        metas_evolve(a, c),
{
    assert forall|i: int| 0 <= i < a.len() implies (c[i] == a[i] || (a[i] is Unsolved
        && c[i] matches MetaSolution::Solved(_))) by {
        assert(b[i] == a[i] || (a[i] is Unsolved && b[i] matches MetaSolution::Solved(_)));
    }
}

impl Default for TCS {
    /// The elaboration state starts with every context empty.
    fn default() -> (r: Self)
        ensures
            r.env@.len() == 0,
            r.local_env@.len() == 0,
            r.gamma@.len() == 0,
            r.local_gamma@.len() == 0,
            r.meta_context@.len() == 0,
    {
        TCS {
            env: Vec::new(),
            local_env: Vec::new(),
            gamma: Vec::new(),
            local_gamma: Vec::new(),
            meta_context: Vec::new(),
        }
    }
}

impl TCS {
    /// Submits the unique solution of a currently unsolved meta. Re-solving
    /// an already solved slot is a programming error, so it is excluded here
    /// rather than handled.
    pub fn solve_meta(&mut self, meta_index: MI, solution: Val)
        requires
            meta_index.0 < old(self).meta_context@.len(),
            old(self).meta_context@[meta_index.0 as int] is Unsolved,
        ensures
            final(self).meta_context@ == old(self).meta_context@.update(
                meta_index.0 as int,
                MetaSolution::Solved(Box::new(solution)),
            ),
            final(self).env == old(self).env,
            final(self).local_env == old(self).local_env,
            final(self).gamma == old(self).gamma,
            final(self).local_gamma == old(self).local_gamma,
            metas_evolve(old(self).meta_context@, final(self).meta_context@),
    {
        self.meta_context.set(meta_index.0, MetaSolution::solved(solution));
    }

    /// Reads one slot of the meta store.
    pub fn meta_solution(&self, meta_index: MI) -> (r: &MetaSolution)
        requires
            meta_index.0 < self.meta_context@.len(),
        ensures
            *r == self.meta_context@[meta_index.0 as int],
    {
        &self.meta_context[meta_index.0]
    }

    /// The whole meta store, for display.
    pub fn meta_solutions(&self) -> (r: &Vec<MetaSolution>)
        ensures
            r == &self.meta_context,
    {
        &self.meta_context
    }

    /// Creates a new valid but unsolved meta and returns the placeholder
    /// value carrying its index.
    pub fn fresh_meta(&mut self) -> (r: Val)
        ensures
            r == Val::Neut(Neutral::Meta(MI(old(self).meta_context@.len() as usize))),
            final(self).meta_context@ == old(self).meta_context@.push(MetaSolution::Unsolved),
            final(self).env == old(self).env,
            final(self).local_env == old(self).local_env,
            final(self).gamma == old(self).gamma,
            final(self).local_gamma == old(self).local_gamma,
            metas_evolve(old(self).meta_context@, final(self).meta_context@),
    {
        let meta = Val::meta(MI(self.meta_context.len()));
        self.meta_context.push(MetaSolution::Unsolved);
        meta
    }

    /// Bulk-reserves `meta_count` fresh unsolved slots ahead of checking a
    /// declaration batch whose desugaring already counted its metas.
    pub fn initialize_meta_context(&mut self, meta_count: MI)
        requires
            old(self).meta_context@.len() + meta_count.0 <= usize::MAX,
        ensures
            final(self).meta_context@.len() == old(self).meta_context@.len() + meta_count.0,
            final(self).meta_context@.subrange(0, old(self).meta_context@.len() as int)
                == old(self).meta_context@,
            forall|i: int|
                old(self).meta_context@.len() <= i < final(self).meta_context@.len()
                    ==> final(self).meta_context@[i] is Unsolved,
            final(self).env == old(self).env,
            final(self).local_env == old(self).local_env,
            final(self).gamma == old(self).gamma,
            final(self).local_gamma == old(self).local_gamma,
            metas_evolve(old(self).meta_context@, final(self).meta_context@),
    {
        let mut remaining: usize = meta_count.0;
        while remaining > 0
            invariant
                self.meta_context@.len() + remaining == old(self).meta_context@.len()
                    + meta_count.0,
                self.meta_context@.len() >= old(self).meta_context@.len(),
                self.meta_context@.subrange(0, old(self).meta_context@.len() as int)
                    == old(self).meta_context@,
                forall|i: int|
                    old(self).meta_context@.len() <= i < self.meta_context@.len()
                        ==> self.meta_context@[i] is Unsolved,
                self.env == old(self).env,
                self.local_env == old(self).local_env,
                self.gamma == old(self).gamma,
                self.local_gamma == old(self).local_gamma,
            decreases remaining,
        {
            self.meta_context.push(MetaSolution::Unsolved);
            remaining = remaining - 1;
            proof {
                assert(self.meta_context@.subrange(0, old(self).meta_context@.len() as int)
                    =~= old(self).meta_context@);
            }
        }
        proof {
            assert(self.meta_context@.subrange(0, old(self).meta_context@.len() as int)
                =~= old(self).meta_context@);
        }
    }

    /// The type of the local variable `dbi` binders out: position 0 is the
    /// innermost binder, so the stack is read from its top.
    pub fn local_type(&self, dbi: DBI) -> (r: &ValInfo)
        requires
            dbi.0 < self.local_gamma@.len(),
        ensures
            *r == self.local_gamma@[self.local_gamma@.len() - 1 - dbi.0],
    {
        &self.local_gamma[self.local_gamma.len() - dbi.0 - 1]
    }

    /// The type of the global at index `dbi`, counted from the start.
    pub fn glob_type(&self, dbi: GI) -> (r: &ValInfo)
        requires
            dbi.0 < self.gamma@.len(),
        ensures
            *r == self.gamma@[dbi.0 as int],
    {
        &self.gamma[dbi.0]
    }

    /// The value of the local variable `dbi` binders out.
    pub fn local_val(&self, dbi: DBI) -> (r: &ValInfo)
        requires
            dbi.0 < self.local_env@.len(),
        ensures
            *r == self.local_env@[self.local_env@.len() - 1 - dbi.0],
    {
        &self.local_env[self.local_env.len() - dbi.0 - 1]
    }

    /// The value of the global at index `dbi`.
    pub fn glob_val(&self, dbi: GI) -> (r: &ValInfo)
        requires
            dbi.0 < self.env@.len(),
        ensures
            *r == self.env@[dbi.0 as int],
    {
        &self.env[dbi.0]
    }

    /// Whether the local at `dbi` stands for a type: its value is one, or
    /// its declared type is a universe.
    pub fn local_is_type(&self, dbi: DBI) -> (r: bool)
        requires
            dbi.0 < self.local_env@.len(),
            dbi.0 < self.local_gamma@.len(),
        ensures
            r == (crate::val::is_type_spec(
                self.local_env@[self.local_env@.len() - 1 - dbi.0].ast,
            ) || self.local_gamma@[self.local_gamma@.len() - 1 - dbi.0].ast matches Val::Type(_)),
    {
        self.local_val(dbi).ast.is_type() || self.local_type(dbi).ast.is_universe()
    }

    /// Whether the global at `dbi` stands for a type.
    pub fn glob_is_type(&self, dbi: GI) -> (r: bool)
        requires
            dbi.0 < self.env@.len(),
            dbi.0 < self.gamma@.len(),
        ensures
            r == (crate::val::is_type_spec(self.env@[dbi.0 as int].ast)
                || self.gamma@[dbi.0 as int].ast matches Val::Type(_)),
    {
        self.glob_val(dbi).ast.is_type() || self.glob_type(dbi).ast.is_universe()
    }

    /// Enters a binder's scope: pushes its type and value together, keeping
    /// the local contexts paired.
    pub fn push_local(&mut self, ty: ValInfo, val: ValInfo)
        ensures
            final(self).local_gamma@ == old(self).local_gamma@.push(ty),
            final(self).local_env@ == old(self).local_env@.push(val),
            final(self).env == old(self).env,
            final(self).gamma == old(self).gamma,
            final(self).meta_context == old(self).meta_context,
    {
        self.local_gamma.push(ty);
        self.local_env.push(val);
    }

    /// Leaves a binder's scope: pops the entry `push_local` made. Popping an
    /// empty local context is a programming error and is excluded here.
    pub fn pop_local(&mut self)
        requires
            old(self).local_gamma@.len() > 0,
            old(self).local_env@.len() > 0,
        ensures
            final(self).local_gamma@ == old(self).local_gamma@.drop_last(),
            final(self).local_env@ == old(self).local_env@.drop_last(),
            final(self).env == old(self).env,
            final(self).gamma == old(self).gamma,
            final(self).meta_context == old(self).meta_context,
    {
        self.local_gamma.pop();
        self.local_env.pop();
    }

    /// The length of the global contexts.
    pub fn glob_len(&self) -> (r: usize)
        ensures
            r == self.gamma@.len(),
    {
        self.gamma.len()
    }

    /// The length of the local contexts.
    pub fn local_len(&self) -> (r: usize)
        ensures
            r == self.local_env@.len(),
    {
        self.local_env.len()
    }
}

} // verus!
