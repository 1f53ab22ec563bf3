use voile::abs::Abs;
use voile::base::{text_of, Fatal, SyntaxInfo, DBI, MI, TCE};
use voile::decl::check_decls;
use voile::state::{MetaSolution, TCS};
use voile::surf::parse_str;
use voile::trans::trans_decls;
use voile::val::Val;

fn check_source(code: &str) -> Result<TCS, TCE> {
    let surf = parse_str(code).unwrap();
    let decls = trans_decls(surf).unwrap();
    check_decls(TCS::default(), decls)
}

#[test]
fn two_decls_same_shape() {
    let tcs = check_source(
        "val a : Type1;\n\
         let a = Type;\n\
         val b : Type1;\n\
         let b = Type;",
    )
    .unwrap();
    assert_eq!(2, tcs.glob_len());
    assert_eq!(Val::Type(1), tcs.gamma[0].ast);
    assert_eq!(tcs.gamma[0].ast, tcs.gamma[1].ast);
    assert_eq!(Val::Type(0), tcs.env[0].ast);
    assert_eq!(tcs.env[0].ast, tcs.env[1].ast);
}

#[test]
fn context_pairing_after_batch() {
    let tcs = check_source(
        "val a : Type2;\n\
         let a = Type1;\n\
         val n : Type;\n\
         let b = Type3;",
    )
    .unwrap();
    assert_eq!(tcs.gamma.len(), tcs.env.len());
    assert_eq!(tcs.local_gamma.len(), tcs.local_env.len());
    assert_eq!(0, tcs.local_len());
    assert_eq!(3, tcs.glob_len());
}

#[test]
fn self_reference_succeeds() {
    let tcs = check_source(
        "val Nat : Type;\n\
         val f : Nat -> Nat;\n\
         let f = \\n . f n;",
    )
    .unwrap();
    assert_eq!(2, tcs.glob_len());
    // the postulate committed an opaque generated value
    assert_eq!(Val::postulate(), tcs.env[0].ast);
    // the function committed a function value
    match &tcs.env[1].ast {
        Val::Lam(_) => {}
        e => panic!("expected a function value, got {:?}", e),
    }
}

#[test]
fn postulate_alone() {
    let tcs = check_source("val Nat : Type;").unwrap();
    assert_eq!(1, tcs.glob_len());
    assert_eq!(Val::Type(0), tcs.gamma[0].ast);
    assert_eq!(Val::postulate(), tcs.env[0].ast);
}

#[test]
fn impl_alone_infers() {
    let tcs = check_source("let a = Type;").unwrap();
    assert_eq!(1, tcs.glob_len());
    assert_eq!(Val::Type(1), tcs.gamma[0].ast);
    assert_eq!(Val::Type(0), tcs.env[0].ast);
}

#[test]
fn exact_universe_levels() {
    let tcs = check_source(
        "val t : Type3;\n\
         let t = Type2;",
    )
    .unwrap();
    assert_eq!(Val::Type(3), tcs.gamma[0].ast);
    assert_eq!(Val::Type(2), tcs.env[0].ast);
}

#[test]
fn mismatch_is_reported() {
    let r = check_source(
        "val a : Type;\n\
         let a = Type1;",
    );
    match r {
        Err(TCE::Mismatch(_)) => {}
        other => panic!("expected a type mismatch, got {:?}", other),
    }
}

#[test]
fn lam_against_universe_is_mismatch() {
    let r = check_source(
        "val a : Type;\n\
         let a = \\x . x;",
    );
    match r {
        Err(TCE::Mismatch(_)) => {}
        other => panic!("expected a type mismatch, got {:?}", other),
    }
}

#[test]
fn bare_lam_cannot_be_inferred() {
    let r = check_source("let i = \\x . x;");
    match r {
        Err(TCE::CannotInfer(_)) => {}
        other => panic!("expected an inference failure, got {:?}", other),
    }
}

#[test]
fn applying_a_non_function_is_not_pi() {
    let r = check_source(
        "val x : Type;\n\
         let y = x x;",
    );
    match r {
        Err(TCE::NotPi(_)) => {}
        other => panic!("expected a non-function error, got {:?}", other),
    }
}

#[test]
fn non_type_signature_is_not_universe() {
    let r = check_source(
        "val Nat : Type;\n\
         val n : Nat;\n\
         val b : n;",
    );
    match r {
        Err(TCE::NotUniverse(_)) => {}
        other => panic!("expected a universe error, got {:?}", other),
    }
}

#[test]
fn unresolved_name_is_rejected() {
    let surf = parse_str("let a = b;").unwrap();
    assert!(trans_decls(surf).is_err());
}

#[test]
fn parse_failure_is_reported() {
    assert!(parse_str("val ;").is_err());
    assert!(parse_str("let x = ").is_err());
    assert!(parse_str("val x : Type").is_err());
}

#[test]
fn out_of_scope_local_is_fatal() {
    let tcs = TCS::default();
    let info = SyntaxInfo::new(0, 1);
    let ident = voile::base::Ident::new(text_of("x"), info);
    let abs = Abs::Var(ident, voile::base::UID(0), DBI(5));
    match tcs.evaluate(abs) {
        Err(TCE::Internal(Fatal::LocalOut)) => {}
        other => panic!("expected an out-of-scope failure, got {:?}", other),
    }
}

#[test]
fn projecting_a_non_pair_type_is_not_sigma() {
    let tcs = TCS::default();
    let info = SyntaxInfo::new(0, 1);
    let abs = Abs::fst(info, Abs::Type(info, 0));
    match voile::check::infer(tcs, &abs) {
        Err(TCE::NotSigma(_)) => {}
        other => panic!("expected a non-pair error, got {:?}", other),
    }
}

#[test]
fn row_polymorphism_is_not_implemented() {
    let tcs = TCS::default();
    let info = SyntaxInfo::new(0, 1);
    let abs = Abs::Sum(info, Vec::new());
    match tcs.evaluate(abs) {
        Err(TCE::NotImplemented(_)) => {}
        other => panic!("expected an unsupported-construct error, got {:?}", other),
    }
}

#[test]
fn meta_store_lifecycle() {
    let mut tcs = TCS::default();
    tcs.initialize_meta_context(MI(2));
    assert_eq!(2, tcs.meta_solutions().len());
    assert_eq!(MetaSolution::Unsolved, *tcs.meta_solution(MI(0)));
    assert_eq!(MetaSolution::Unsolved, *tcs.meta_solution(MI(1)));
    let fresh = tcs.fresh_meta();
    assert_eq!(Val::meta(MI(2)), fresh);
    assert_eq!(3, tcs.meta_solutions().len());
    tcs.solve_meta(MI(1), Val::Type(0));
    assert_eq!(MetaSolution::solved(Val::Type(0)), *tcs.meta_solution(MI(1)));
    assert_eq!(MetaSolution::Unsolved, *tcs.meta_solution(MI(0)));
    assert_eq!(MetaSolution::Unsolved, *tcs.meta_solution(MI(2)));
}

#[test]
fn bot_implementation_checks() {
    let tcs = check_source(
        "val a : Type;\n\
         let a = !;",
    )
    .unwrap();
    assert_eq!(1, tcs.glob_len());
    assert_eq!(Val::Type(0), tcs.gamma[0].ast);
    assert_eq!(Val::Bot, tcs.env[0].ast);
}

#[test]
fn unify_solves_an_unsolved_meta() {
    let mut tcs = TCS::default();
    tcs.initialize_meta_context(MI(1));
    let span = SyntaxInfo::new(0, 0);
    let tcs = voile::check::unify(tcs, &Val::meta(MI(0)), &Val::Type(2), span).unwrap();
    assert_eq!(MetaSolution::solved(Val::Type(2)), *tcs.meta_solution(MI(0)));
    // a second, different solution is a mismatch, never a re-solve
    let r = voile::check::unify(tcs, &Val::meta(MI(0)), &Val::Type(3), span);
    assert!(matches!(r, Err(TCE::Mismatch(_))));
}

#[test]
fn unify_decides_structural_equality() {
    let span = SyntaxInfo::new(0, 0);
    let tcs = TCS::default();
    let tcs = voile::check::unify(tcs, &Val::Type(1), &Val::Type(1), span).unwrap();
    let r = voile::check::unify(tcs, &Val::Type(1), &Val::Bot, span);
    assert!(matches!(r, Err(TCE::Mismatch(_))));
}

#[test]
fn meta_placeholder_checks_against_anything() {
    let mut tcs = TCS::default();
    tcs.initialize_meta_context(MI(1));
    let ident = voile::base::Ident::new(text_of("m"), SyntaxInfo::new(0, 1));
    let abs = Abs::Meta(ident, MI(0));
    let (v, tcs) = voile::check::check(tcs, &abs, &Val::Type(0)).unwrap();
    assert_eq!(Val::meta(MI(0)), v.ast);
    assert_eq!(MetaSolution::Unsolved, *tcs.meta_solution(MI(0)));
}
