use vstd::prelude::*;
use crate::base::{text_eq, SyntaxInfo, Text, DBI, GI, UID};
use crate::abs::{Abs, AbsDecl};
use crate::surf::{Decl, DeclKind, Expr};

verus! {

/// A name-resolution failure, with the span of the offending name.
#[derive(Clone, Copy, Debug, PartialEq, Eq, Structural)]
pub struct TransErr {
    pub info: SyntaxInfo,
}

/// Well-scopedness of abstract syntax against a global context of `glob`
/// entries and `depth` enclosing binders: every local index is within the
/// binders in scope at its occurrence and every global index within the
/// context. The unsupported row-polymorphic form never comes out of the
/// desugarer, so it counts as ill-scoped.
pub open spec fn abs_scoped(a: Abs, glob: nat, depth: nat) -> bool
    decreases a,
{
    match a {
        Abs::Type(_, _) => true,
        Abs::Bot(_) => true,
        Abs::Var(_, _, i) => i.0 < depth,
        Abs::Ref(_, gi) => gi.0 < glob,
        Abs::Meta(_, _) => true,
        Abs::Lift(_, _, e) => abs_scoped(*e, glob, depth),
        Abs::Cons(_) => true,
        Abs::App(_, f, a) => abs_scoped(*f, glob, depth) && abs_scoped(*a, glob, depth),
        Abs::Dt(_, _, _, p, q) => abs_scoped(*p, glob, depth) && abs_scoped(*q, glob, depth + 1),
        Abs::Lam(_, _, _, b) => abs_scoped(*b, glob, depth + 1),
        Abs::Pair(_, x, y) => abs_scoped(*x, glob, depth) && abs_scoped(*y, glob, depth),
        Abs::Fst(_, p) => abs_scoped(*p, glob, depth),
        Abs::Snd(_, p) => abs_scoped(*p, glob, depth),
        Abs::Sum(_, _) => false,
    }
}

/// Well-scopedness of one desugared declaration destined for position `k`
/// of the global context: its index is `k`, a signature or standalone body
/// may reach the globals before it, and the body of a signature-body pair
/// may also reach its own reserved index.
pub open spec fn decl_scoped(d: AbsDecl, k: nat) -> bool {
    match d {
        AbsDecl::Sign(a, gi) => gi.0 == k && abs_scoped(a, k, 0),
        AbsDecl::Impl(a, gi) => gi.0 == k && abs_scoped(a, k, 0),
        AbsDecl::Both(sign, body, gi) => gi.0 == k && abs_scoped(sign, k, 0) && abs_scoped(
            body,
            k + 1,
            0,
        ),
    }
}

/// Name lookup in a binder stack, scanning the slice below position `i`
/// from its top: the innermost binder spelling the name wins, and the result
/// is its de Bruijn index counted from the top of the whole stack.
pub open spec fn lookup_from(stack: Seq<Text>, name: Text, i: int) -> Option<nat>
    decreases i,
{
    if i <= 0 {
        None
    } else if stack[i - 1] == name {
        Some((stack.len() - i) as nat)
    } else {
        lookup_from(stack, name, i - 1)
    }
}

/// The local de Bruijn index a name resolves to: that of the innermost
/// binder spelling it.
pub open spec fn lookup_local_spec(stack: Seq<Text>, name: Text) -> Option<nat> {
    lookup_from(stack, name, stack.len() as int)
}

/// Global lookup among the first `i` declared names, most recent first: the
/// result is the index, from the start, of the last global spelling the name.
pub open spec fn lookup_glob_from(globals: Seq<Text>, name: Text, i: int) -> Option<nat>
    decreases i,
{
    if i <= 0 {
        None
    } else if globals[i - 1] == name {
        Some((i - 1) as nat)
    } else {
        lookup_glob_from(globals, name, i - 1)
    }
}

/// The global index a name resolves to: the most recently declared global
/// spelling it.
pub open spec fn lookup_glob_spec(globals: Seq<Text>, name: Text) -> Option<nat> {
    lookup_glob_from(globals, name, globals.len() as int)
}

/// What name resolution returns on each surface form: universes, the empty
/// type and constructor names pass through; a name becomes the local
/// variable of the innermost binder spelling it, or failing that the most
/// recently declared global, or a resolution error at its span; binders get
/// their depth as unique identifier and extend the stack for their bodies.
pub open spec fn trans_expr_spec(expr: Expr, globals: Seq<Text>, locals: Seq<Text>) -> Result<
    Abs,
    TransErr,
>
    decreases expr,
{
    match expr {
        Expr::Type(info, level) => Ok(Abs::Type(info, level)),
        Expr::Bot(info) => Ok(Abs::Bot(info)),
        Expr::Cons(ident) => Ok(Abs::Cons(ident)),
        Expr::Var(ident) => match lookup_local_spec(locals, ident.text) {
            Some(dbi) => Ok(
                Abs::Var(ident, UID((locals.len() - 1 - dbi) as usize), DBI(dbi as usize)),
            ),
            None => match lookup_glob_spec(globals, ident.text) {
                Some(gi) => Ok(Abs::Ref(ident, GI(gi as usize))),
                None => Err(TransErr { info: ident.info }),
            },
        },
        Expr::App(info, f, a) => match trans_expr_spec(*f, globals, locals) {
            Ok(tf) => match trans_expr_spec(*a, globals, locals) {
                Ok(ta) => Ok(Abs::App(info, Box::new(tf), Box::new(ta))),
                Err(e) => Err(e),
            },
            Err(e) => Err(e),
        },
        Expr::Pi(info, binder, dom, cod) => match trans_expr_spec(*dom, globals, locals) {
            Ok(td) => {
                let binder_text = match binder {
                    Some(id) => id.text,
                    None => Text::Nil,
                };
                match trans_expr_spec(*cod, globals, locals.push(binder_text)) {
                    Ok(tc) => Ok(
                        Abs::Dt(
                            info,
                            crate::base::DtKind::Pi,
                            UID(locals.len() as usize),
                            Box::new(td),
                            Box::new(tc),
                        ),
                    ),
                    Err(e) => Err(e),
                }
            },
            Err(e) => Err(e),
        },
        Expr::Lam(info, param, body) => match trans_expr_spec(
            *body,
            globals,
            locals.push(param.text),
        ) {
            Ok(tb) => Ok(Abs::Lam(info, param, UID(locals.len() as usize), Box::new(tb))),
            Err(e) => Err(e),
        },
    }
}

/// Looks a name up in the binder stack, innermost binder first: the result
/// is the local de Bruijn index of the innermost binder spelling the name.
fn lookup_local(stack: &Vec<Text>, name: &Text) -> (r: Option<usize>)
    ensures
        r matches Some(j) ==> j < stack@.len(),
        match (r, lookup_local_spec(stack@, *name)) {
            (Some(a), Some(b)) => a as nat == b,
            (None, None) => true,
            _ => false,
        },
{
    let mut i = stack.len();
    while i > 0
        invariant
            i <= stack@.len(),
            lookup_local_spec(stack@, *name) == lookup_from(stack@, *name, i as int),
        decreases i,
    {
        if text_eq(&stack[i - 1], name) {
            return Some(stack.len() - i);
        }
        i = i - 1;
    }
    None
}

/// Looks a name up among the declared globals: the most recently declared
/// global spelling the name wins, and its index from the start is returned.
fn lookup_glob(globals: &Vec<Text>, name: &Text) -> (r: Option<usize>)
    ensures
        r matches Some(j) ==> j < globals@.len(),
        match (r, lookup_glob_spec(globals@, *name)) {
            (Some(a), Some(b)) => a as nat == b,
            (None, None) => true,
            _ => false,
        },
{
    let mut i = globals.len();
    while i > 0
        invariant
            i <= globals@.len(),
            lookup_glob_spec(globals@, *name) == lookup_glob_from(globals@, *name, i as int),
        decreases i,
    {
        if text_eq(&globals[i - 1], name) {
            return Some(i - 1);
        }
        i = i - 1;
    }
    None
}

/// Resolves one surface expression against the declared globals and the
/// current binder stack, which it extends under binders and restores before
/// returning. Binders get their depth as unique identifier.
fn trans_expr_at(expr: &Expr, globals: &Vec<Text>, locals: &mut Vec<Text>) -> (r: Result<
    Abs,
    TransErr,
>)
    ensures
        final(locals)@ == old(locals)@,
        match (r, trans_expr_spec(*expr, globals@, old(locals)@)) {
            (Ok(a), Ok(b)) => a == b,
            (Err(e1), Err(e2)) => e1 == e2,
            _ => false,
        },
        r matches Ok(a) ==> abs_scoped(a, globals@.len(), old(locals)@.len()),
    decreases expr,
{
    match expr {
        Expr::Type(info, level) => Ok(Abs::Type(*info, *level)),
        Expr::Bot(info) => Ok(Abs::Bot(*info)),
        Expr::Cons(ident) => Ok(Abs::Cons(ident.clone())),
        Expr::Var(ident) => match lookup_local(locals, &ident.text) {
            Some(dbi) => Ok(Abs::Var(ident.clone(), UID(locals.len() - 1 - dbi), DBI(dbi))),
            None => match lookup_glob(globals, &ident.text) {
                Some(gi) => Ok(Abs::Ref(ident.clone(), GI(gi))),
                None => Err(TransErr { info: ident.info }),
            },
        },
        Expr::App(info, f, a) => {
            let tf = match trans_expr_at(f, globals, locals) {
                Ok(x) => x,
                Err(e) => {
                    return Err(e);
                },
            };
            let ta = match trans_expr_at(a, globals, locals) {
                Ok(x) => x,
                Err(e) => {
                    return Err(e);
                },
            };
            Ok(Abs::app(*info, tf, ta))
        },
        Expr::Pi(info, binder, dom, cod) => {
            let td = match trans_expr_at(dom, globals, locals) {
                Ok(x) => x,
                Err(e) => {
                    return Err(e);
                },
            };
            let uid = UID(locals.len());
            let binder_text = match binder {
                Some(ident) => ident.text.clone(),
                None => Text::Nil,
            };
            locals.push(binder_text);
            let tc = match trans_expr_at(cod, globals, locals) {
                Ok(x) => x,
                Err(e) => {
                    let _ = locals.pop();
                    proof {
                        assert(locals@ =~= old(locals)@);
                    }
                    return Err(e);
                },
            };
            let _ = locals.pop();
            proof {
                assert(locals@ =~= old(locals)@);
            }
            Ok(Abs::pi(*info, uid, td, tc))
        },
        Expr::Lam(info, param, body) => {
            let uid = UID(locals.len());
            locals.push(param.text.clone());
            let tb = match trans_expr_at(body, globals, locals) {
                Ok(x) => x,
                Err(e) => {
                    let _ = locals.pop();
                    proof {
                        assert(locals@ =~= old(locals)@);
                    }
                    return Err(e);
                },
            };
            let _ = locals.pop();
            proof {
                assert(locals@ =~= old(locals)@);
            }
            Ok(Abs::lam(*info, param.clone(), uid, tb))
        },
    }
}

/// Resolves one surface expression in the given scope, leaving the binder
/// stack as it was handed in.
pub fn trans_expr(expr: &Expr, globals: &Vec<Text>, locals: &Vec<Text>) -> (r: Result<
    Abs,
    TransErr,
>)
    ensures
        match (r, trans_expr_spec(*expr, globals@, locals@)) {
            (Ok(a), Ok(b)) => a == b,
            (Err(e1), Err(e2)) => e1 == e2,
            _ => false,
        },
        r matches Ok(a) ==> abs_scoped(a, globals@.len(), locals@.len()),
{
    let mut stack: Vec<Text> = Vec::new();
    let mut i: usize = 0;
    while i < locals.len()
        invariant
            i <= locals@.len(),
            stack@ == locals@.subrange(0, i as int),
        decreases locals@.len() - i,
    {
        stack.push(locals[i].clone());
        i = i + 1;
        proof {
            assert(stack@ =~= locals@.subrange(0, i as int));
        }
    }
    proof {
        assert(stack@ =~= locals@);
    }
    trans_expr_at(expr, globals, &mut stack)
}

/// What batch resolution returns, given the names already declared: an
/// empty batch is done; a `val` immediately followed by a `let` of the same
/// name becomes one signature-body pair, with the name in scope for the
/// body; a lone `val` becomes a signature, a lone `let` a bare
/// implementation; each declaration is tagged with the index it commits to,
/// the number of names declared before it, and the first resolution failure
/// aborts the batch with its error.
pub open spec fn trans_decls_spec(decls: Seq<Decl>, globals: Seq<Text>) -> Result<
    Seq<AbsDecl>,
    TransErr,
>
    decreases decls.len(),
{
    if decls.len() == 0 {
        Ok(Seq::empty())
    } else {
        let d = decls[0];
        let gi = GI(globals.len() as usize);
        match d.kind {
            DeclKind::Sign => match trans_expr_spec(d.body, globals, Seq::empty()) {
                Ok(sa) => if decls.len() > 1 && decls[1].kind is Impl && decls[1].name.text
                    == d.name.text {
                    match trans_expr_spec(decls[1].body, globals.push(d.name.text), Seq::empty()) {
                        Ok(ba) => match trans_decls_spec(decls.skip(2), globals.push(d.name.text)) {
                            Ok(rest) => Ok(seq![AbsDecl::Both(sa, ba, gi)] + rest),
                            Err(e) => Err(e),
                        },
                        Err(e) => Err(e),
                    }
                } else {
                    match trans_decls_spec(decls.drop_first(), globals.push(d.name.text)) {
                        Ok(rest) => Ok(seq![AbsDecl::Sign(sa, gi)] + rest),
                        Err(e) => Err(e),
                    }
                },
                Err(e) => Err(e),
            },
            DeclKind::Impl => match trans_expr_spec(d.body, globals, Seq::empty()) {
                Ok(ba) => match trans_decls_spec(decls.drop_first(), globals.push(d.name.text)) {
                    Ok(rest) => Ok(seq![AbsDecl::Impl(ba, gi)] + rest),
                    Err(e) => Err(e),
                },
                Err(e) => Err(e),
            },
        }
    }
}

fn trans_decls_at(decls: Vec<Decl>, globals: Vec<Text>) -> (r: Result<Vec<AbsDecl>, TransErr>)
    ensures
        match (r, trans_decls_spec(decls@, globals@)) {
            (Ok(out), Ok(sv)) => out@ == sv,
            (Err(e1), Err(e2)) => e1 == e2,
            _ => false,
        },
        r matches Ok(out) ==> forall|k: int|
            0 <= k < out@.len() ==> decl_scoped(out@[k], (globals@.len() + k) as nat),
    decreases decls@.len(),
{
    let mut decls = decls;
    let mut globals = globals;
    let mut locals: Vec<Text> = Vec::new();
    if decls.len() == 0 {
        let out: Vec<AbsDecl> = Vec::new();
        proof {
            assert(out@ =~= Seq::<AbsDecl>::empty());
        }
        return Ok(out);
    }
    let ghost decls0 = decls@;
    let d = decls.remove(0);
    let Decl { name, body, kind } = d;
    let gi = GI(globals.len());
    match kind {
        DeclKind::Sign => {
            let sign_abs = match trans_expr_at(&body, &globals, &mut locals) {
                Ok(x) => x,
                Err(e) => {
                    return Err(e);
                },
            };
            let paired_body = decls.len() > 0 && matches!(decls[0].kind, DeclKind::Impl)
                && text_eq(&decls[0].name.text, &name.text);
            if paired_body {
                let d2 = decls.remove(0);
                proof {
                    assert(decls0.skip(2) =~= decls@);
                }
                globals.push(name.text);
                let body_abs = match trans_expr_at(&d2.body, &globals, &mut locals) {
                    Ok(x) => x,
                    Err(e) => {
                        return Err(e);
                    },
                };
                let mut rest = match trans_decls_at(decls, globals) {
                    Ok(x) => x,
                    Err(e) => {
                        return Err(e);
                    },
                };
                rest.insert(0, AbsDecl::Both(sign_abs, body_abs, gi));
                proof {
                    assert(rest@ =~= seq![rest@[0]] + rest@.drop_first());
                }
                Ok(rest)
            } else {
                proof {
                    assert(decls0.drop_first() =~= decls@);
                }
                globals.push(name.text);
                let mut rest = match trans_decls_at(decls, globals) {
                    Ok(x) => x,
                    Err(e) => {
                        return Err(e);
                    },
                };
                rest.insert(0, AbsDecl::Sign(sign_abs, gi));
                proof {
                    assert(rest@ =~= seq![rest@[0]] + rest@.drop_first());
                }
                Ok(rest)
            }
        },
        DeclKind::Impl => {
            let body_abs = match trans_expr_at(&body, &globals, &mut locals) {
                Ok(x) => x,
                Err(e) => {
                    return Err(e);
                },
            };
            proof {
                assert(decls0.drop_first() =~= decls@);
            }
            globals.push(name.text);
            let mut rest = match trans_decls_at(decls, globals) {
                Ok(x) => x,
                Err(e) => {
                    return Err(e);
                },
            };
            rest.insert(0, AbsDecl::Impl(body_abs, gi));
            proof {
                assert(rest@ =~= seq![rest@[0]] + rest@.drop_first());
            }
            Ok(rest)
        },
    }
}

/// Resolves a batch of surface declarations in order, starting from an
/// empty global scope. A `val` immediately followed by a `let` of the same
/// name makes one signature-body pair whose body may refer to the
/// declaration itself; a `val` alone is a postulate; a `let` alone gets its
/// type inferred. Each declaration is tagged with the global index it will
/// commit to.
pub fn trans_decls(decls: Vec<Decl>) -> (r: Result<Vec<AbsDecl>, TransErr>)
    ensures
        match (r, trans_decls_spec(decls@, Seq::empty())) {
            (Ok(out), Ok(sv)) => out@ == sv,
            (Err(e1), Err(e2)) => e1 == e2,
            _ => false,
        },
        r matches Ok(out) ==> forall|k: int| 0 <= k < out@.len() ==> decl_scoped(out@[k], k as nat),
{
    let globals: Vec<Text> = Vec::new();
    proof {
        assert(globals@ =~= Seq::<Text>::empty());
    }
    trans_decls_at(decls, globals)
}

/// The names the committed globals will carry, in commit order: a `val`
/// immediately followed by a `let` of the same name commits one entry under
/// that name, exactly as `trans_decls` pairs them.
pub open spec fn decl_names_spec(decls: Seq<Decl>) -> Seq<Text>
    decreases decls.len(),
{
    if decls.len() == 0 {
        Seq::empty()
    } else if decls[0].kind is Sign && decls.len() > 1 && decls[1].kind is Impl && decls[1].name.text
        == decls[0].name.text {
        seq![decls[0].name.text] + decl_names_spec(decls.skip(2))
    } else {
        seq![decls[0].name.text] + decl_names_spec(decls.drop_first())
    }
}

fn decl_names_at(decls: &Vec<Decl>, from: usize) -> (r: Vec<Text>)
    requires
        from <= decls@.len(),
    ensures
        r@ == decl_names_spec(decls@.skip(from as int)),
    decreases decls@.len() - from,
{
    if from == decls.len() {
        let out: Vec<Text> = Vec::new();
        proof {
            assert(decls@.skip(from as int) =~= Seq::<Decl>::empty());
            assert(out@ =~= Seq::<Text>::empty());
        }
        return out;
    }
    let ghost suffix = decls@.skip(from as int);
    proof {
        assert(suffix[0] == decls@[from as int]);
    }
    let name = decls[from].name.text.clone();
    let paired = matches!(decls[from].kind, DeclKind::Sign) && from + 1 < decls.len() && matches!(
        decls[from + 1].kind,
        DeclKind::Impl,
    ) && text_eq(&decls[from + 1].name.text, &decls[from].name.text);
    let next = if paired {
        from + 2
    } else {
        from + 1
    };
    proof {
        if paired {
            assert(suffix[1] == decls@[from + 1]);
            assert(suffix.skip(2) =~= decls@.skip(from + 2));
        } else {
            assert(suffix.drop_first() =~= decls@.skip(from + 1));
        }
    }
    let mut rest = decl_names_at(decls, next);
    rest.insert(0, name);
    proof {
        assert(rest@ =~= seq![rest@[0]] + rest@.drop_first());
    }
    rest
}

/// The name of each committed global, in commit order.
pub fn decl_names(decls: &Vec<Decl>) -> (r: Vec<Text>)
    ensures
        r@ == decl_names_spec(decls@),
{
    let r = decl_names_at(decls, 0);
    proof {
        assert(decls@.skip(0) =~= decls@);
    }
    r
}

} // verus!
