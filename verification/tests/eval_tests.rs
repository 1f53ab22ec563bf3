use std::rc::Rc;

use voile::abs::Abs;
use voile::base::{text_of, Ident, SyntaxInfo, DBI, GI, MI};
use voile::env::DbiEnv_;
use voile::eval::{compile_cons, compile_variant, expand_meta};
use voile::state::TCS;
use voile::term::{Closure, ClosureBody, Neutral, Term, TermInfo};
use voile::val::{Val, ValInfo, Variants};

fn span() -> SyntaxInfo {
    SyntaxInfo::new(0, 0)
}

fn ident(name: &str) -> Ident {
    Ident::new(text_of(name), span())
}

#[test]
fn cons_closure_wraps_argument() {
    let compiled = compile_cons(ident("#foo"));
    let expected = Val::lam(Val::cons(text_of("foo"), Val::var(DBI(0))));
    assert_eq!(expected, compiled.ast);
    let applied = compiled.ast.apply(Val::Type(3)).unwrap();
    assert_eq!(Val::cons(text_of("foo"), Val::Type(3)), applied);
}

#[test]
fn cons_evaluates_through_the_state() {
    let tcs = TCS::default();
    let (v, _) = tcs.evaluate(Abs::Cons(ident("#suc"))).unwrap();
    assert_eq!(Val::lam(Val::cons(text_of("suc"), Val::var(DBI(0)))), v.ast);
}

#[test]
fn variant_closure_builds_singleton_sum() {
    let compiled = compile_variant(ident("#zero"));
    let body = Val::Sum(Variants::Cons(
        text_of("zero"),
        Box::new(Val::var(DBI(0))),
        Box::new(Variants::Nil),
    ));
    assert_eq!(Val::lam(body), compiled.ast);
}

#[test]
fn stuck_application_deepens() {
    let arg = Term::Type(0);
    let applied = Term::mock().apply(arg).unwrap();
    assert_eq!(
        Term::app(Neutral::Gen(None), Term::Type(0)),
        applied
    );
}

#[test]
fn stuck_projections_deepen() {
    assert_eq!(
        Term::fst(Neutral::Gen(Some(DBI(1)))),
        Term::gen(DBI(1)).first().unwrap()
    );
    assert_eq!(
        Term::snd(Neutral::Gen(Some(DBI(1)))),
        Term::gen(DBI(1)).second().unwrap()
    );
}

#[test]
fn eliminators_reject_canonical_mismatches() {
    assert!(Term::Type(0).apply(Term::Bot).is_err());
    assert!(Term::Bot.first().is_err());
    assert!(Term::Type(2).second().is_err());
    assert!(Val::Type(0).apply(Val::Bot).is_err());
    assert!(Val::Bot.first().is_err());
}

#[test]
fn closure_instantiation_substitutes() {
    // the identity function: its body is the variable bound at position 0
    let nil = Rc::new(DbiEnv_::nil());
    let body = TermInfo::new(Term::gen(DBI(0)), span());
    let closure = Closure::new(Term::Type(0), ClosureBody::new(body, nil));
    let id = Term::Lam(closure);
    let r = id.apply(Term::Type(7)).unwrap();
    assert_eq!(Term::Type(7), r);
}

#[test]
fn pair_reduces_componentwise() {
    let env = Rc::new(DbiEnv_::cons_rc(Rc::new(DbiEnv_::nil()), Term::Type(4)));
    let pair = Term::pair(Term::gen(DBI(0)), Term::Bot);
    let r = pair.reduce(env).unwrap();
    assert_eq!(Term::pair(Term::Type(4), Term::Bot), r);
}

#[test]
fn projection_after_reduction() {
    let env = Rc::new(DbiEnv_::cons_rc(
        Rc::new(DbiEnv_::nil()),
        Term::pair(Term::Type(1), Term::Type(2)),
    ));
    let fst = Neutral::Fst(Box::new(Neutral::Gen(Some(DBI(0)))));
    assert_eq!(Term::Type(1), fst.reduce(env.clone()).unwrap());
    let snd = Neutral::Snd(Box::new(Neutral::Gen(Some(DBI(0)))));
    assert_eq!(Term::Type(2), snd.reduce(env).unwrap());
}

#[test]
fn absent_entry_stays_generated() {
    let nil = Rc::new(DbiEnv_::nil());
    assert_eq!(Term::gen(DBI(3)), Term::gen(DBI(3)).reduce(nil).unwrap());
}

#[test]
fn lift_shifts_universes() {
    assert_eq!(Val::Type(3), Val::Type(1).lift(2).unwrap());
    let dt = Val::dependent_type(voile::base::DtKind::Pi, Val::Type(0), Val::Type(1));
    let lifted = Val::dependent_type(voile::base::DtKind::Pi, Val::Type(2), Val::Type(3));
    assert_eq!(lifted, dt.lift(2).unwrap());
}

#[test]
fn lift_evaluates_from_syntax() {
    let tcs = TCS::default();
    let abs = Abs::lift(span(), 2, Abs::Type(span(), 1));
    let (v, _) = tcs.evaluate(abs).unwrap();
    assert_eq!(Val::Type(3), v.ast);
}

#[test]
fn expand_meta_applies_solution() {
    let vars = vec![
        ValInfo::new(Val::var(DBI(0)), span()),
    ];
    let solution = Box::new(Val::lam(Val::cons(text_of("c"), Val::var(DBI(0)))));
    let expanded = expand_meta(&vars, solution).unwrap();
    assert_eq!(Val::cons(text_of("c"), Val::var(DBI(0))), expanded);
    let nothing = expand_meta(&[], Box::new(Val::Type(5))).unwrap();
    assert_eq!(Val::Type(5), nothing);
}

#[test]
fn expand_global_resolves_references() {
    let mut tcs = TCS::default();
    tcs.gamma.push(ValInfo::new(Val::Type(1), span()));
    tcs.env.push(ValInfo::new(Val::Type(0), span()));
    let (v, tcs) = tcs.expand_global(Val::glob(GI(0))).unwrap();
    assert_eq!(Val::Type(0), v);
    let solved = tcs;
    let mut solved = solved;
    solved.initialize_meta_context(MI(1));
    solved.solve_meta(MI(0), Val::Bot);
    let (m, _) = solved.expand_global(Val::meta(MI(0))).unwrap();
    assert_eq!(Val::Bot, m);
}

#[test]
fn expand_global_rejects_unsolved_meta() {
    let mut tcs = TCS::default();
    tcs.initialize_meta_context(MI(1));
    assert!(tcs.expand_global(Val::meta(MI(0))).is_err());
}

#[test]
fn attach_dbi_retags_generated_variables() {
    assert_eq!(Val::var(DBI(4)), Val::var(DBI(0)).attach_dbi(DBI(4)));
    assert_eq!(Val::Type(2), Val::Type(2).attach_dbi(DBI(4)));
    assert_eq!(Val::postulate(), Val::postulate().attach_dbi(DBI(4)));
}

#[test]
fn evaluate_builds_pairs_and_projects() {
    let tcs = TCS::default();
    let pair = Abs::pair(span(), Abs::Type(span(), 1), Abs::Bot(span()));
    let (v, tcs) = tcs.evaluate(pair).unwrap();
    assert_eq!(Val::pair(Val::Type(1), Val::Bot), v.ast);
    let first = Abs::fst(
        span(),
        Abs::pair(span(), Abs::Type(span(), 1), Abs::Bot(span())),
    );
    let (f, _) = tcs.evaluate(first).unwrap();
    assert_eq!(Val::Type(1), f.ast);
}

#[test]
fn type_level_suffix_parses() {
    let surf = voile::surf::parse_str("val x : Type17;").unwrap();
    let decls = voile::trans::trans_decls(surf).unwrap();
    match &decls[0] {
        voile::abs::AbsDecl::Sign(Abs::Type(_, level), _) => assert_eq!(17, *level),
        other => panic!("unexpected desugaring: {:?}", other),
    }
}

#[test]
fn pi_signature_evaluates_to_dt_value() {
    let surf = voile::surf::parse_str("val t : Type2 -> Type5;").unwrap();
    let decls = voile::trans::trans_decls(surf).unwrap();
    let tcs = voile::decl::check_decls(TCS::default(), decls).unwrap();
    assert_eq!(
        Val::dependent_type(voile::base::DtKind::Pi, Val::Type(2), Val::Type(5)),
        tcs.gamma[0].ast
    );
}

#[test]
fn level_takes_the_larger_component() {
    let dt = Val::dependent_type(voile::base::DtKind::Pi, Val::Type(1), Val::Type(3));
    assert_eq!(Some(4), dt.level());
    assert_eq!(Some(2), Val::Type(1).level());
    assert_eq!(Some(0), Val::Bot.level());
    assert_eq!(Some(0), Val::postulate().level());
}
