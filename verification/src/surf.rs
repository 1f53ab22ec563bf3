use vstd::prelude::*;
use crate::base::{chars_of, text_from, Ident, Level, SyntaxInfo, Text};

verus! {

/// Concrete surface syntax, as written: names are not yet resolved and
/// binders carry their surface identifiers.
#[derive(Debug, PartialEq, Eq)]
pub enum Expr {
    /// A name, to be resolved to a local or global reference.
    Var(Ident),
    /// A constructor name, still carrying its leading tag sigil.
    Cons(Ident),
    /// Type universe with an optional level suffix, `Type` being level 0.
    Type(SyntaxInfo, Level),
    /// The empty type, written `!`.
    Bot(SyntaxInfo),
    App(SyntaxInfo, Box<Expr>, Box<Expr>),
    /// Function type, `(a : A) -> B` or `A -> B`.
    Pi(SyntaxInfo, Option<Ident>, Box<Expr>, Box<Expr>),
    /// Function literal, `\x . body`.
    Lam(SyntaxInfo, Ident, Box<Expr>),
}

/// The two surface declaration forms: `val x : T;` and `let x = e;`.
#[derive(Clone, Copy, Debug, PartialEq, Eq, Structural)]
pub enum DeclKind {
    Sign,
    Impl,
}

/// One surface declaration.
#[derive(Debug, PartialEq, Eq)]
pub struct Decl {
    pub name: Ident,
    pub body: Expr,
    pub kind: DeclKind,
}

/// A parse failure, with the position (in characters) where it was noticed.
#[derive(Clone, Copy, Debug, PartialEq, Eq, Structural)]
pub struct ParseError {
    pub pos: usize,
}

pub open spec fn is_ws(c: char) -> bool {
    c == ' ' || c == '\n' || c == '\t' || c == '\r'
}

pub open spec fn is_digit(c: char) -> bool {
    ('0' as u32) <= (c as u32) <= ('9' as u32)
}

pub open spec fn is_ident_start(c: char) -> bool {
    (('a' as u32) <= (c as u32) <= ('z' as u32)) || (('A' as u32) <= (c as u32) <= ('Z' as u32))
        || c == '_'
}

pub open spec fn is_ident_char(c: char) -> bool {
    is_ident_start(c) || is_digit(c)
}

/// The first position at or after `pos` that does not hold whitespace.
pub open spec fn skip_ws_spec(s: Seq<char>, pos: int) -> int
    decreases s.len() - pos,
{
    if pos < s.len() && is_ws(s[pos]) {
        skip_ws_spec(s, pos + 1)
    } else {
        pos
    }
}

/// The end of the identifier run starting at `pos`.
pub open spec fn ident_end_spec(s: Seq<char>, pos: int) -> int
    decreases s.len() - pos,
{
    if pos < s.len() && is_ident_char(s[pos]) {
        ident_end_spec(s, pos + 1)
    } else {
        pos
    }
}

/// The universe level spelled by the digits of `s` between `i` and `end`
/// on top of `acc`, or nothing when a character is not a digit or the level
/// does not fit.
pub open spec fn type_level_spec(s: Seq<char>, i: int, end: int, acc: nat) -> Option<Level>
    decreases end - i,
{
    if i >= end {
        Some(acc as usize)
    } else if !is_digit(s[i]) {
        None
    } else {
        let v = acc * 10 + ((s[i] as u32) - ('0' as u32));
        if v > usize::MAX {
            None
        } else {
            type_level_spec(s, i + 1, end, v as nat)
        }
    }
}

/// The universe an identifier token spells, if it does: the word `Type`
/// followed by the digits of its level, `Type` alone being level 0.
pub open spec fn classify_type_spec(s: Seq<char>, start: int, end: int) -> Option<Level> {
    if end - start < 4 {
        None
    } else if !(s[start] == 'T' && s[start + 1] == 'y' && s[start + 2] == 'p' && s[start + 3]
        == 'e') {
        None
    } else {
        type_level_spec(s, start + 4, end, 0)
    }
}

/// Whether a parenthesis at `pos - 1` opens a named binder `(x : T)`: an
/// identifier followed by a colon, up to whitespace.
pub open spec fn binder_ahead_spec(s: Seq<char>, pos: int) -> bool {
    let p = skip_ws_spec(s, pos);
    if p < s.len() && is_ident_start(s[p]) {
        let q = skip_ws_spec(s, ident_end_spec(s, p));
        q < s.len() && s[q] == ':'
    } else {
        false
    }
}

/// Whether the three keyword characters stand at `pos`, not continued by an
/// identifier character.
pub open spec fn at_keyword_spec(s: Seq<char>, pos: int, k1: char, k2: char, k3: char) -> bool {
    &&& pos + 3 <= s.len()
    &&& s[pos] == k1
    &&& s[pos + 1] == k2
    &&& s[pos + 2] == k3
    &&& (pos + 3 == s.len() || !is_ident_char(s[pos + 3]))
}

/// The identifier token starting at `pos`: its span and its text.
pub open spec fn ident_at_spec(s: Seq<char>, pos: int) -> (Ident, int) {
    let end = ident_end_spec(s, pos);
    (
        Ident {
            info: SyntaxInfo { start: pos as usize, end: end as usize },
            text: text_from(s.subrange(pos, end)),
        },
        end,
    )
}

/// What expression parsing returns at a position: a function literal, or a
/// function type or anything tighter. The fuel bounds the nesting the parser
/// may enter; one more unit than the input length always suffices, since
/// every descent first consumes a character.
pub open spec fn parse_expr_spec(s: Seq<char>, pos: int, fuel: nat) -> Result<
    (Expr, int),
    ParseError,
>
    decreases fuel, 5int,
{
    let start = skip_ws_spec(s, pos);
    if start >= s.len() {
        Err(ParseError { pos: start as usize })
    } else if s[start] == '\\' {
        if fuel == 0 {
            Err(ParseError { pos: start as usize })
        } else {
            let p = skip_ws_spec(s, start + 1);
            if p < s.len() && is_ident_start(s[p]) {
                let (param, end) = ident_at_spec(s, p);
                let q = skip_ws_spec(s, end);
                if q < s.len() && s[q] == '.' {
                    match parse_expr_spec(s, q + 1, (fuel - 1) as nat) {
                        Ok((body, p2)) => Ok(
                            (
                                Expr::Lam(
                                    SyntaxInfo { start: start as usize, end: p2 as usize },
                                    param,
                                    Box::new(body),
                                ),
                                p2,
                            ),
                        ),
                        Err(e) => Err(e),
                    }
                } else {
                    Err(ParseError { pos: q as usize })
                }
            } else {
                Err(ParseError { pos: p as usize })
            }
        }
    } else {
        parse_pi_spec(s, start, fuel)
    }
}

/// What function-type parsing returns: a named binder arrow, a plain arrow,
/// or just an application.
pub open spec fn parse_pi_spec(s: Seq<char>, pos: int, fuel: nat) -> Result<
    (Expr, int),
    ParseError,
>
    decreases fuel, 4int,
{
    let start = skip_ws_spec(s, pos);
    if start < s.len() && s[start] == '(' && binder_ahead_spec(s, start + 1) {
        if fuel == 0 {
            Err(ParseError { pos: start as usize })
        } else {
            let p = skip_ws_spec(s, start + 1);
            if p < s.len() && is_ident_start(s[p]) {
                let (binder, end) = ident_at_spec(s, p);
                let q = skip_ws_spec(s, end);
                if q < s.len() && s[q] == ':' {
                    match parse_expr_spec(s, q + 1, (fuel - 1) as nat) {
                        Ok((dom, p2)) => {
                            let r1 = skip_ws_spec(s, p2);
                            if r1 < s.len() && s[r1] == ')' {
                                let r2 = skip_ws_spec(s, r1 + 1);
                                if s.len() - r2 >= 2 && s[r2] == '-' && s[r2 + 1] == '>' {
                                    match parse_expr_spec(s, r2 + 2, (fuel - 1) as nat) {
                                        Ok((cod, p3)) => Ok(
                                            (
                                                Expr::Pi(
                                                    SyntaxInfo {
                                                        start: start as usize,
                                                        end: p3 as usize,
                                                    },
                                                    Some(binder),
                                                    Box::new(dom),
                                                    Box::new(cod),
                                                ),
                                                p3,
                                            ),
                                        ),
                                        Err(e) => Err(e),
                                    }
                                } else {
                                    Err(ParseError { pos: r2 as usize })
                                }
                            } else {
                                Err(ParseError { pos: r1 as usize })
                            }
                        },
                        Err(e) => Err(e),
                    }
                } else {
                    Err(ParseError { pos: q as usize })
                }
            } else {
                Err(ParseError { pos: p as usize })
            }
        }
    } else {
        match parse_app_spec(s, pos, fuel) {
            Ok((dom, p)) => {
                let after = skip_ws_spec(s, p);
                if s.len() - after >= 2 && s[after] == '-' && s[after + 1] == '>' {
                    if fuel == 0 {
                        Err(ParseError { pos: after as usize })
                    } else {
                        match parse_expr_spec(s, after + 2, (fuel - 1) as nat) {
                            Ok((cod, p2)) => Ok(
                                (
                                    Expr::Pi(
                                        SyntaxInfo { start: start as usize, end: p2 as usize },
                                        None,
                                        Box::new(dom),
                                        Box::new(cod),
                                    ),
                                    p2,
                                ),
                            ),
                            Err(e) => Err(e),
                        }
                    }
                } else {
                    Ok((dom, p))
                }
            },
            Err(e) => Err(e),
        }
    }
}

/// What application parsing returns: one atom, then as many further atoms as
/// follow, folded into left-nested applications spanning from `pos`.
pub open spec fn parse_app_spec(s: Seq<char>, pos: int, fuel: nat) -> Result<
    (Expr, int),
    ParseError,
>
    decreases fuel, 3int,
{
    match parse_atom_spec(s, pos, fuel) {
        Ok((first, p)) => parse_app_rest_spec(s, first, pos, p, fuel),
        Err(e) => Err(e),
    }
}

/// Folds further atoms onto an already parsed application head.
pub open spec fn parse_app_rest_spec(s: Seq<char>, acc: Expr, pos0: int, p: int, fuel: nat) -> Result<
    (Expr, int),
    ParseError,
>
    decreases fuel, 2int,
{
    let next = skip_ws_spec(s, p);
    let more = next < s.len() && (s[next] == '(' || s[next] == '!' || s[next] == '#'
        || is_ident_start(s[next]));
    if !more {
        Ok((acc, p))
    } else if fuel == 0 {
        Err(ParseError { pos: next as usize })
    } else {
        match parse_atom_spec(s, next, fuel) {
            Ok((arg, p2)) => parse_app_rest_spec(
                s,
                Expr::App(
                    SyntaxInfo { start: pos0 as usize, end: p2 as usize },
                    Box::new(acc),
                    Box::new(arg),
                ),
                pos0,
                p2,
                (fuel - 1) as nat,
            ),
            Err(e) => Err(e),
        }
    }
}

/// What atom parsing returns: the empty type, a parenthesized expression, a
/// constructor name with its sigil, a universe token, or a plain name.
pub open spec fn parse_atom_spec(s: Seq<char>, pos: int, fuel: nat) -> Result<
    (Expr, int),
    ParseError,
>
    decreases fuel, 1int,
{
    let start = skip_ws_spec(s, pos);
    if start >= s.len() {
        Err(ParseError { pos: start as usize })
    } else if s[start] == '!' {
        Ok((Expr::Bot(SyntaxInfo { start: start as usize, end: (start + 1) as usize }), start + 1))
    } else if s[start] == '(' {
        if fuel == 0 {
            Err(ParseError { pos: start as usize })
        } else {
            match parse_expr_spec(s, start + 1, (fuel - 1) as nat) {
                Ok((inner, p)) => {
                    let q = skip_ws_spec(s, p);
                    if q < s.len() && s[q] == ')' {
                        Ok((inner, q + 1))
                    } else {
                        Err(ParseError { pos: q as usize })
                    }
                },
                Err(e) => Err(e),
            }
        }
    } else if s[start] == '#' {
        if start + 1 < s.len() && is_ident_start(s[start + 1]) {
            let (ident, end) = ident_at_spec(s, start + 1);
            Ok(
                (
                    Expr::Cons(
                        Ident {
                            info: SyntaxInfo { start: start as usize, end: end as usize },
                            text: Text::Cons('#', Box::new(ident.text)),
                        },
                    ),
                    end,
                ),
            )
        } else {
            Err(ParseError { pos: start as usize })
        }
    } else if is_ident_start(s[start]) {
        let (ident, end) = ident_at_spec(s, start);
        match classify_type_spec(s, start, end) {
            Some(level) => Ok(
                (Expr::Type(SyntaxInfo { start: start as usize, end: end as usize }, level), end),
            ),
            None => Ok((Expr::Var(ident), end)),
        }
    } else {
        Err(ParseError { pos: start as usize })
    }
}

/// What declaration parsing returns: `val x : T;` as a signature or
/// `let x = e;` as an implementation, ending after the semicolon.
pub open spec fn parse_decl_spec(s: Seq<char>, pos: int, fuel: nat) -> Result<
    (Decl, int),
    ParseError,
>
    decreases fuel, 6int,
{
    let start = skip_ws_spec(s, pos);
    let is_val = at_keyword_spec(s, start, 'v', 'a', 'l');
    let is_let = at_keyword_spec(s, start, 'l', 'e', 't');
    if !is_val && !is_let {
        Err(ParseError { pos: start as usize })
    } else {
        let kind = if is_val {
            DeclKind::Sign
        } else {
            DeclKind::Impl
        };
        let separator = if is_val {
            ':'
        } else {
            '='
        };
        let p = skip_ws_spec(s, start + 3);
        if p < s.len() && is_ident_start(s[p]) {
            let (name, end) = ident_at_spec(s, p);
            let q = skip_ws_spec(s, end);
            if q < s.len() && s[q] == separator {
                match parse_expr_spec(s, q + 1, fuel) {
                    Ok((body, p2)) => {
                        let r1 = skip_ws_spec(s, p2);
                        if r1 < s.len() && s[r1] == ';' {
                            Ok((Decl { name, body, kind }, r1 + 1))
                        } else {
                            Err(ParseError { pos: r1 as usize })
                        }
                    },
                    Err(e) => Err(e),
                }
            } else {
                Err(ParseError { pos: q as usize })
            }
        } else {
            Err(ParseError { pos: p as usize })
        }
    }
}

/// What parsing a whole source returns: its declarations in order, ending
/// only when everything after the last one is whitespace; otherwise the
/// error of the declaration that failed.
pub open spec fn parse_decls_spec(s: Seq<char>, pos: int, fuel: nat) -> Result<
    Seq<Decl>,
    ParseError,
>
    decreases fuel, 7int,
{
    let next = skip_ws_spec(s, pos);
    if next >= s.len() {
        Ok(Seq::empty())
    } else if fuel == 0 {
        Err(ParseError { pos: next as usize })
    } else {
        match parse_decl_spec(s, pos, fuel) {
            Ok((d, p)) => match parse_decls_spec(s, p, (fuel - 1) as nat) {
                Ok(rest) => Ok(seq![d] + rest),
                Err(e) => Err(e),
            },
            Err(e) => Err(e),
        }
    }
}

/// The nesting budget parsing a given input gets: one more step than it has
/// characters, which cannot run out because every descent first consumes at
/// least one character.
pub open spec fn fuel_for(s: Seq<char>) -> nat {
    if s.len() < usize::MAX {
        s.len() + 1
    } else {
        usize::MAX as nat
    }
}

/// What `parse_str` returns on a given input.
pub open spec fn parse_str_spec(s: Seq<char>) -> Result<Seq<Decl>, ParseError> {
    parse_decls_spec(s, 0, fuel_for(s))
}

/// What `parse_expr` returns on a given input: the expression it spells,
/// provided only whitespace follows it.
pub open spec fn parse_expr_str_spec(s: Seq<char>) -> Result<Expr, ParseError> {
    match parse_expr_spec(s, 0, fuel_for(s)) {
        Ok((e, p)) => {
            let q = skip_ws_spec(s, p);
            if q < s.len() {
                Err(ParseError { pos: q as usize })
            } else {
                Ok(e)
            }
        },
        Err(e) => Err(e),
    }
}

fn ws_char(c: char) -> (r: bool)
    ensures
        r == is_ws(c),
{
    c == ' ' || c == '\n' || c == '\t' || c == '\r'
}

fn digit_char(c: char) -> (r: bool)
    ensures
        r == is_digit(c),
{
    (c as u32) >= ('0' as u32) && (c as u32) <= ('9' as u32)
}

fn ident_start_char(c: char) -> (r: bool)
    ensures
        r == is_ident_start(c),
{
    ((c as u32) >= ('a' as u32) && (c as u32) <= ('z' as u32)) || ((c as u32) >= ('A' as u32) && (c
        as u32) <= ('Z' as u32)) || c == '_'
}

fn ident_char(c: char) -> (r: bool)
    ensures
        r == is_ident_char(c),
{
    ident_start_char(c) || digit_char(c)
}

/// Advances past whitespace.
fn skip_ws(s: &Vec<char>, pos: usize) -> (r: usize)
    requires
        pos <= s@.len(),
    ensures
        pos <= r <= s@.len(),
        r as int == skip_ws_spec(s@, pos as int),
    decreases s@.len() - pos,
{
    if pos < s.len() && ws_char(s[pos]) {
        skip_ws(s, pos + 1)
    } else {
        pos
    }
}

/// Scans an identifier starting at `pos`; the position must sit on an
/// identifier start character.
fn scan_ident(s: &Vec<char>, pos: usize) -> (r: (Ident, usize))
    requires
        pos < s@.len(),
        is_ident_start(s@[pos as int]),
    ensures
        pos < r.1 <= s@.len(),
        r.0 == ident_at_spec(s@, pos as int).0,
        r.1 as int == ident_at_spec(s@, pos as int).1,
    decreases s@.len() - pos,
{
    let n = s.len();
    let mut p = pos + 1;
    while p < s.len() && ident_char(s[p])
        invariant
            pos < p <= s@.len(),
            ident_end_spec(s@, pos as int) == ident_end_spec(s@, p as int),
        decreases s@.len() - p,
    {
        p = p + 1;
    }
    let mut text: Text = Text::Nil;
    let mut i = p;
    proof {
        assert(s@.subrange(i as int, p as int) =~= Seq::<char>::empty());
    }
    while i > pos
        invariant
            pos <= i <= p <= s@.len(),
            text == text_from(s@.subrange(i as int, p as int)),
        decreases i,
    {
        i = i - 1;
        text = Text::Cons(s[i], Box::new(text));
        proof {
            assert(s@.subrange(i as int, p as int).drop_first() =~= s@.subrange(
                i as int + 1,
                p as int,
            ));
            assert(s@.subrange(i as int, p as int)[0] == s@[i as int]);
        }
    }
    (Ident { info: SyntaxInfo { start: pos, end: p }, text }, p)
}

/// Whether the scanned identifier spells `Type`, with the rest of the token
/// giving the universe level.
fn classify_type(s: &Vec<char>, start: usize, end: usize) -> (r: Option<Level>)
    requires
        start <= end <= s@.len(),
    ensures
        r == classify_type_spec(s@, start as int, end as int),
{
    if end - start < 4 {
        return None;
    }
    if !(s[start] == 'T' && s[start + 1] == 'y' && s[start + 2] == 'p' && s[start + 3] == 'e') {
        return None;
    }
    let mut level: usize = 0;
    let mut i = start + 4;
    while i < end
        invariant
            start + 4 <= i <= end,
            end <= s@.len(),
            classify_type_spec(s@, start as int, end as int) == type_level_spec(
                s@,
                i as int,
                end as int,
                level as nat,
            ),
        decreases end - i,
    {
        if !digit_char(s[i]) {
            return None;
        }
        let d = (s[i] as u32) - ('0' as u32);
        level = match level.checked_mul(10) {
            Some(x) => match x.checked_add(d as usize) {
                Some(y) => y,
                None => {
                    return None;
                },
            },
            None => {
                return None;
            },
        };
        i = i + 1;
    }
    Some(level)
}

/// Whether a parenthesis opens a named binder `(x : T)`, looking ahead
/// without consuming anything.
fn looks_like_binder(s: &Vec<char>, pos: usize) -> (r: bool)
    requires
        pos <= s@.len(),
    ensures
        r == binder_ahead_spec(s@, pos as int),
{
    let p = skip_ws(s, pos);
    if !(p < s.len() && ident_start_char(s[p])) {
        return false;
    }
    let ghost p0 = p as int;
    let mut q = p;
    while q < s.len() && ident_char(s[q])
        invariant
            p <= q <= s@.len(),
            ident_end_spec(s@, p0) == ident_end_spec(s@, q as int),
        decreases s@.len() - q,
    {
        q = q + 1;
    }
    let q2 = skip_ws(s, q);
    q2 < s.len() && s[q2] == ':'
}

/// Whether the characters from `pos` spell the given keyword followed by a
/// non-identifier character.
fn at_keyword(s: &Vec<char>, pos: usize, k1: char, k2: char, k3: char) -> (r: bool)
    requires
        pos <= s@.len(),
    ensures
        r == at_keyword_spec(s@, pos as int, k1, k2, k3),
        r ==> pos + 3 <= s@.len(),
{
    if s.len() - pos < 3 {
        return false;
    }
    if !(s[pos] == k1 && s[pos + 1] == k2 && s[pos + 2] == k3) {
        return false;
    }
    pos + 3 == s.len() || !ident_char(s[pos + 3])
}

/// Parses one expression, consuming at least one character past the leading
/// whitespace.
fn parse_expr_at(s: &Vec<char>, pos: usize, fuel: usize) -> (r: Result<(Expr, usize), ParseError>)
    requires
        pos <= s@.len(),
    ensures
        match (r, parse_expr_spec(s@, pos as int, fuel as nat)) {
            (Ok(p), Ok(q)) => p.0 == q.0 && p.1 as int == q.1,
            (Err(e1), Err(e2)) => e1 == e2,
            _ => false,
        },
        r matches Ok(p) ==> pos < p.1 <= s@.len(),
        r matches Err(e) ==> e.pos <= s@.len(),
    decreases fuel, 5int,
{
    let start = skip_ws(s, pos);
    if start >= s.len() {
        return Err(ParseError { pos: start });
    }
    if s[start] == '\\' {
        if fuel == 0 {
            return Err(ParseError { pos: start });
        }
        let p = skip_ws(s, start + 1);
        if !(p < s.len() && ident_start_char(s[p])) {
            return Err(ParseError { pos: p });
        }
        let (param, p) = scan_ident(s, p);
        let p = skip_ws(s, p);
        if !(p < s.len() && s[p] == '.') {
            return Err(ParseError { pos: p });
        }
        let (body, p) = match parse_expr_at(s, p + 1, fuel - 1) {
            Ok(x) => x,
            Err(e) => {
                return Err(e);
            },
        };
        let info = SyntaxInfo { start, end: p };
        Ok((Expr::Lam(info, param, Box::new(body)), p))
    } else {
        parse_pi_at(s, start, fuel)
    }
}

/// Parses a function type or anything tighter: a named binder `(x : A) -> B`,
/// a plain arrow `A -> B`, or an application.
fn parse_pi_at(s: &Vec<char>, pos: usize, fuel: usize) -> (r: Result<(Expr, usize), ParseError>)
    requires
        pos <= s@.len(),
    ensures
        match (r, parse_pi_spec(s@, pos as int, fuel as nat)) {
            (Ok(p), Ok(q)) => p.0 == q.0 && p.1 as int == q.1,
            (Err(e1), Err(e2)) => e1 == e2,
            _ => false,
        },
        r matches Ok(p) ==> pos < p.1 <= s@.len(),
        r matches Err(e) ==> e.pos <= s@.len(),
    decreases fuel, 4int,
{
    let start = skip_ws(s, pos);
    if start < s.len() && s[start] == '(' && looks_like_binder(s, start + 1) {
        if fuel == 0 {
            return Err(ParseError { pos: start });
        }
        let p = skip_ws(s, start + 1);
        if !(p < s.len() && ident_start_char(s[p])) {
            return Err(ParseError { pos: p });
        }
        let (binder, p) = scan_ident(s, p);
        let p = skip_ws(s, p);
        if !(p < s.len() && s[p] == ':') {
            return Err(ParseError { pos: p });
        }
        let (dom, p) = match parse_expr_at(s, p + 1, fuel - 1) {
            Ok(x) => x,
            Err(e) => {
                return Err(e);
            },
        };
        let p = skip_ws(s, p);
        if !(p < s.len() && s[p] == ')') {
            return Err(ParseError { pos: p });
        }
        let p = skip_ws(s, p + 1);
        if !(s.len() - p >= 2 && s[p] == '-' && s[p + 1] == '>') {
            return Err(ParseError { pos: p });
        }
        let (cod, p) = match parse_expr_at(s, p + 2, fuel - 1) {
            Ok(x) => x,
            Err(e) => {
                return Err(e);
            },
        };
        let info = SyntaxInfo { start, end: p };
        Ok((Expr::Pi(info, Some(binder), Box::new(dom), Box::new(cod)), p))
    } else {
        let (dom, p) = match parse_app_at(s, pos, fuel) {
            Ok(x) => x,
            Err(e) => {
                return Err(e);
            },
        };
        let after = skip_ws(s, p);
        if s.len() - after >= 2 && s[after] == '-' && s[after + 1] == '>' {
            if fuel == 0 {
                return Err(ParseError { pos: after });
            }
            let (cod, p2) = match parse_expr_at(s, after + 2, fuel - 1) {
                Ok(x) => x,
                Err(e) => {
                    return Err(e);
                },
            };
            let info = SyntaxInfo { start, end: p2 };
            Ok((Expr::Pi(info, None, Box::new(dom), Box::new(cod)), p2))
        } else {
            Ok((dom, p))
        }
    }
}

/// Parses one or more atoms, folding them into left-nested applications.
fn parse_app_at(s: &Vec<char>, pos: usize, fuel: usize) -> (r: Result<(Expr, usize), ParseError>)
    requires
        pos <= s@.len(),
    ensures
        match (r, parse_app_spec(s@, pos as int, fuel as nat)) {
            (Ok(p), Ok(q)) => p.0 == q.0 && p.1 as int == q.1,
            (Err(e1), Err(e2)) => e1 == e2,
            _ => false,
        },
        r matches Ok(p) ==> pos < p.1 <= s@.len(),
        r matches Err(e) ==> e.pos <= s@.len(),
    decreases fuel, 3int,
{
    let (first, p) = match parse_atom_at(s, pos, fuel) {
        Ok(x) => x,
        Err(e) => {
            return Err(e);
        },
    };
    parse_app_rest(s, first, pos, p, fuel)
}

/// Folds further atoms onto an already parsed application head spanning
/// from `pos0`.
fn parse_app_rest(s: &Vec<char>, acc: Expr, pos0: usize, p: usize, fuel: usize) -> (r: Result<
    (Expr, usize),
    ParseError,
>)
    requires
        p <= s@.len(),
    ensures
        match (r, parse_app_rest_spec(s@, acc, pos0 as int, p as int, fuel as nat)) {
            (Ok(o), Ok(q)) => o.0 == q.0 && o.1 as int == q.1,
            (Err(e1), Err(e2)) => e1 == e2,
            _ => false,
        },
        r matches Ok(o) ==> p <= o.1 <= s@.len(),
        r matches Err(e) ==> e.pos <= s@.len(),
    decreases fuel, 2int,
{
    let next = skip_ws(s, p);
    let more = if next >= s.len() {
        false
    } else {
        let c = s[next];
        c == '(' || c == '!' || c == '#' || ident_start_char(c)
    };
    if !more {
        return Ok((acc, p));
    }
    if fuel == 0 {
        return Err(ParseError { pos: next });
    }
    let (arg, p2) = match parse_atom_at(s, next, fuel) {
        Ok(x) => x,
        Err(e) => {
            return Err(e);
        },
    };
    let info = SyntaxInfo { start: pos0, end: p2 };
    parse_app_rest(s, Expr::App(info, Box::new(acc), Box::new(arg)), pos0, p2, fuel - 1)
}

/// Parses one atom: a universe, the empty type, a constructor or plain name,
/// or a parenthesized expression.
fn parse_atom_at(s: &Vec<char>, pos: usize, fuel: usize) -> (r: Result<(Expr, usize), ParseError>)
    requires
        pos <= s@.len(),
    ensures
        match (r, parse_atom_spec(s@, pos as int, fuel as nat)) {
            (Ok(p), Ok(q)) => p.0 == q.0 && p.1 as int == q.1,
            (Err(e1), Err(e2)) => e1 == e2,
            _ => false,
        },
        r matches Ok(p) ==> pos < p.1 <= s@.len(),
        r matches Err(e) ==> e.pos <= s@.len(),
    decreases fuel, 1int,
{
    let start = skip_ws(s, pos);
    if start >= s.len() {
        return Err(ParseError { pos: start });
    }
    let c = s[start];
    if c == '!' {
        Ok((Expr::Bot(SyntaxInfo { start, end: start + 1 }), start + 1))
    } else if c == '(' {
        if fuel == 0 {
            return Err(ParseError { pos: start });
        }
        let (inner, p) = match parse_expr_at(s, start + 1, fuel - 1) {
            Ok(x) => x,
            Err(e) => {
                return Err(e);
            },
        };
        let p = skip_ws(s, p);
        if p < s.len() && s[p] == ')' {
            Ok((inner, p + 1))
        } else {
            Err(ParseError { pos: p })
        }
    } else if c == '#' {
        if start + 1 < s.len() && ident_start_char(s[start + 1]) {
            let (ident, p) = scan_ident(s, start + 1);
            let text = Text::Cons('#', Box::new(ident.text));
            let info = SyntaxInfo { start, end: p };
            Ok((Expr::Cons(Ident { info, text }), p))
        } else {
            Err(ParseError { pos: start })
        }
    } else if ident_start_char(c) {
        let (ident, p) = scan_ident(s, start);
        match classify_type(s, start, p) {
            Some(level) => Ok((Expr::Type(SyntaxInfo { start, end: p }, level), p)),
            None => Ok((Expr::Var(ident), p)),
        }
    } else {
        Err(ParseError { pos: start })
    }
}

/// Parses one declaration: `val x : T;` or `let x = e;`.
fn parse_decl_at(s: &Vec<char>, pos: usize, fuel: usize) -> (r: Result<(Decl, usize), ParseError>)
    requires
        pos <= s@.len(),
    ensures
        match (r, parse_decl_spec(s@, pos as int, fuel as nat)) {
            (Ok(p), Ok(q)) => p.0 == q.0 && p.1 as int == q.1,
            (Err(e1), Err(e2)) => e1 == e2,
            _ => false,
        },
        r matches Ok(p) ==> pos < p.1 <= s@.len(),
        r matches Err(e) ==> e.pos <= s@.len(),
    decreases fuel, 6int,
{
    let n = s.len();
    let start = skip_ws(s, pos);
    let is_val = at_keyword(s, start, 'v', 'a', 'l');
    let is_let = at_keyword(s, start, 'l', 'e', 't');
    if !is_val && !is_let {
        return Err(ParseError { pos: start });
    }
    let kind = if is_val {
        DeclKind::Sign
    } else {
        DeclKind::Impl
    };
    let separator = if is_val {
        ':'
    } else {
        '='
    };
    let p = skip_ws(s, start + 3);
    if !(p < s.len() && ident_start_char(s[p])) {
        return Err(ParseError { pos: p });
    }
    let (name, p) = scan_ident(s, p);
    let p = skip_ws(s, p);
    if !(p < s.len() && s[p] == separator) {
        return Err(ParseError { pos: p });
    }
    let (body, p) = match parse_expr_at(s, p + 1, fuel) {
        Ok(x) => x,
        Err(e) => {
            return Err(e);
        },
    };
    let p = skip_ws(s, p);
    if !(p < s.len() && s[p] == ';') {
        return Err(ParseError { pos: p });
    }
    Ok((Decl { name, body, kind }, p + 1))
}

/// Parses every declaration from `pos` on; only whitespace may follow the
/// last one.
fn parse_decls_at(s: &Vec<char>, pos: usize, fuel: usize) -> (r: Result<Vec<Decl>, ParseError>)
    requires
        pos <= s@.len(),
    ensures
        match (r, parse_decls_spec(s@, pos as int, fuel as nat)) {
            (Ok(ds), Ok(q)) => ds@ == q,
            (Err(e1), Err(e2)) => e1 == e2,
            _ => false,
        },
    decreases fuel, 7int,
{
    let next = skip_ws(s, pos);
    if next >= s.len() {
        let out: Vec<Decl> = Vec::new();
        proof {
            assert(out@ =~= Seq::<Decl>::empty());
        }
        return Ok(out);
    }
    if fuel == 0 {
        return Err(ParseError { pos: next });
    }
    let (d, p) = match parse_decl_at(s, pos, fuel) {
        Ok(x) => x,
        Err(e) => {
            return Err(e);
        },
    };
    let mut rest = match parse_decls_at(s, p, fuel - 1) {
        Ok(x) => x,
        Err(e) => {
            return Err(e);
        },
    };
    rest.insert(0, d);
    proof {
        assert(rest@ =~= seq![rest@[0]] + rest@.drop_first());
    }
    Ok(rest)
}

/// Parses a whole source text into its declarations, in order. The result is
/// the declarations the grammar gives the input, and it succeeds exactly
/// when the whole input is consumed up to trailing whitespace; the error
/// carries the position where parsing stopped.
pub fn parse_str(input: &str) -> (r: Result<Vec<Decl>, ParseError>)
    ensures
        match (r, parse_str_spec(input@)) {
            (Ok(ds), Ok(q)) => ds@ == q,
            (Err(e1), Err(e2)) => e1 == e2,
            _ => false,
        },
{
    let s = chars_of(input);
    let fuel = if s.len() < usize::MAX {
        s.len() + 1
    } else {
        usize::MAX
    };
    parse_decls_at(&s, 0, fuel)
}

/// Parses a single expression, requiring that it spans the whole input up
/// to trailing whitespace.
pub fn parse_expr(input: &str) -> (r: Result<Expr, ParseError>)
    ensures
        match (r, parse_expr_str_spec(input@)) {
            (Ok(e), Ok(q)) => e == q,
            (Err(e1), Err(e2)) => e1 == e2,
            _ => false,
        },
{
    let s = chars_of(input);
    let fuel = if s.len() < usize::MAX {
        s.len() + 1
    } else {
        usize::MAX
    };
    let (e, p) = match parse_expr_at(&s, 0, fuel) {
        Ok(x) => x,
        Err(e) => {
            return Err(e);
        },
    };
    let p = skip_ws(&s, p);
    if p < s.len() {
        return Err(ParseError { pos: p });
    }
    Ok(e)
}

} // verus!
