use vstd::prelude::*;
use vstd::std_specs::iter::IteratorSpec;

verus! {

/// Local de Bruijn index: position of a bound variable counted from the
/// innermost binder (index 0 is the most recently bound one).
#[derive(Clone, Copy, Debug, PartialEq, Eq, Structural)]
pub struct DBI(pub usize);

/// Global index: position in the paired global (type, value) arrays,
/// counted from the start (index 0 is the first declared global).
#[derive(Clone, Copy, Debug, PartialEq, Eq, Structural)]
pub struct GI(pub usize);

/// Meta variable index: position in the meta-variable store.
#[derive(Clone, Copy, Debug, PartialEq, Eq, Structural)]
pub struct MI(pub usize);

/// Unique identifier attached to each binder by the desugarer.
#[derive(Clone, Copy, Debug, PartialEq, Eq, Structural)]
pub struct UID(pub usize);

/// Universe level; the hierarchy is cumulative.
pub type Level = usize;

/// Source span of a piece of syntax, carried for diagnostics only: it never
/// affects reduction or comparison of terms and values.
#[derive(Clone, Copy, Debug, PartialEq, Eq, Structural)]
pub struct SyntaxInfo {
    pub start: usize,
    pub end: usize,
}

impl SyntaxInfo {
    pub fn new(start: usize, end: usize) -> (r: Self)
        ensures
            r == (SyntaxInfo { start, end }),
    {
        SyntaxInfo { start, end }
    }
}

/// Identifier and label text, held as a list of characters so that names
/// can be built, sliced and compared exactly, in contracts as well as in
/// code; its view is the same sequence of characters a string's view is.
#[derive(Debug, PartialEq, Eq)]
pub enum Text {
    Nil,
    Cons(char, Box<Text>),
}

impl Clone for Text {
    fn clone(&self) -> (r: Self)
        ensures
            r == *self,
        decreases self,
    {
        match self {
            Text::Nil => Text::Nil,
            Text::Cons(c, rest) => Text::Cons(*c, Box::new((**rest).clone())),
        }
    }
}

/// The characters a piece of text spells.
pub open spec fn text_view(t: Text) -> Seq<char>
    decreases t,
{
    match t {
        Text::Nil => Seq::empty(),
        Text::Cons(c, rest) => seq![c] + text_view(*rest),
    }
}

/// The text spelling a given sequence of characters.
pub open spec fn text_from(s: Seq<char>) -> Text
    decreases s.len(),
{
    if s.len() == 0 {
        Text::Nil
    } else {
        Text::Cons(s[0], Box::new(text_from(s.drop_first())))
    }
}

/// Whether two pieces of text spell the same name.
pub fn text_eq(a: &Text, b: &Text) -> (r: bool)
    ensures
        r == (a == b),
    decreases a,
{
    match (a, b) {
        (Text::Nil, Text::Nil) => true,
        (Text::Cons(c1, r1), Text::Cons(c2, r2)) => *c1 == *c2 && text_eq(r1, r2),
        _ => false,
    }
}

/// The text spelled by the characters of `v` from position `from` on.
pub fn text_of_chars(v: &Vec<char>, from: usize) -> (r: Text)
    requires
        from <= v@.len(),
    ensures
        r == text_from(v@.skip(from as int)),
    decreases v@.len() - from,
{
    if from == v.len() {
        proof {
            assert(v@.skip(from as int) =~= Seq::<char>::empty());
        }
        Text::Nil
    } else {
        let rest = text_of_chars(v, from + 1);
        proof {
            assert(v@.skip(from as int).drop_first() =~= v@.skip(from as int + 1));
        }
        Text::Cons(v[from], Box::new(rest))
    }
}

/// The characters of a string, for random access while scanning it.
pub fn chars_of(s: &str) -> (r: Vec<char>)
    ensures
        r@ == s@,
{
    broadcast use vstd::string::axiom_spec_iter;
    broadcast use vstd::string::next_postcondition;

    let mut r: Vec<char> = Vec::new();
    let mut it = s.chars();
    loop
        invariant
            it.decrease() is Some,
            r@ + it.remaining() == s@,
        decreases it.decrease()->0,
    {
        match it.next() {
            Some(c) => {
                r.push(c);
                proof {
                    assert(r@ + it.remaining() =~= s@);
                }
            },
            None => {
                proof {
                    assert(r@ =~= s@);
                }
                return r;
            },
        }
    }
}

/// The text of a whole string.
pub fn text_of(s: &str) -> (r: Text)
    ensures
        r == text_from(s@),
{
    let chars = chars_of(s);
    let r = text_of_chars(&chars, 0);
    proof {
        assert(chars@.skip(0) =~= s@);
    }
    r
}

/// A name as written in the source, with its span.
#[derive(Debug, PartialEq, Eq)]
pub struct Ident {
    pub info: SyntaxInfo,
    pub text: Text,
}

impl Clone for Ident {
    fn clone(&self) -> (r: Self)
        ensures
            r == *self,
    {
        Ident { info: self.info, text: self.text.clone() }
    }
}

impl Ident {
    pub fn new(text: Text, info: SyntaxInfo) -> (r: Self)
        ensures
            r == (Ident { info, text }),
    {
        Ident { info, text }
    }
}

/// The two kinds of dependent type: dependent function and dependent pair.
#[derive(Clone, Copy, Debug, PartialEq, Eq, Structural)]
pub enum DtKind {
    Pi,
    Sigma,
}

/// Visibility of a binder's parameter, kept on core dependent types because
/// it affects how surface applications are elaborated.
#[derive(Clone, Copy, Debug, PartialEq, Eq, Structural)]
pub enum ParamKind {
    Explicit,
    Implicit,
}

/// Internal invariant violations and resource bounds. These mean the checker
/// produced or was handed an unsound term; they abort the whole batch and are
/// never recovered from. Reduction depth is bounded, so running out of steps
/// is reported here as well instead of diverging.
#[derive(Clone, Copy, Debug, PartialEq, Eq, Structural)]
pub enum Fatal {
    /// An eliminator was applied to a canonical form it cannot eliminate.
    BadApply,
    /// A projection was applied to a value that is neither a pair nor neutral.
    BadProj,
    /// A local de Bruijn index at or beyond the local context length.
    LocalOut,
    /// A global index at or beyond the global context length.
    GlobOut,
    /// A meta index that was never registered.
    MetaOut,
    /// An unsolved meta was reached where a concrete value was demanded.
    MetaUnsolved,
    /// An inlined meta was read as a neutral leaf.
    MetaInlined,
    /// A universe level exceeded the representable range.
    LevelOverflow,
    /// The reduction step bound was exhausted.
    Depth,
}

/// Recoverable, user-facing type-checking errors. Each carries the span of
/// the offending expression. `Internal` wraps a `Fatal` condition surfaced
/// as a value so that callers can stop the batch.
#[derive(Clone, Copy, Debug, PartialEq, Eq, Structural)]
pub enum TCE {
    /// The function position of an application is not of a Pi type.
    NotPi(SyntaxInfo),
    /// The subject of a projection is not of a Sigma type.
    NotSigma(SyntaxInfo),
    /// An expression used as a type does not inhabit any universe.
    NotUniverse(SyntaxInfo),
    /// No principal type can be synthesized without an expected type.
    CannotInfer(SyntaxInfo),
    /// The checked expression's type differs from the expected type.
    Mismatch(SyntaxInfo),
    /// The construct is recognised but not supported by this checker.
    NotImplemented(SyntaxInfo),
    Internal(Fatal),
}

/// Bound on the number of beta and projection steps any one reduction may
/// take. Checker-produced terms stay far below it; exhausting it is the
/// `Fatal::Depth` condition.
pub const FUEL: usize = 1000000;

} // verus!

