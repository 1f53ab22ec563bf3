use voile::abs::{Abs, AbsDecl};
use voile::base::DtKind;
use voile::surf::parse_str;
use voile::trans::{trans_decls, trans_expr};

fn must_be_app(abs: Abs) -> Abs {
    match abs {
        Abs::App(_, _, abs) => *abs,
        e => panic!("`{:?}` is not an `Abs::App`.", e),
    }
}

fn must_be_pi(abs: Abs) -> (Abs, Abs) {
    match abs {
        Abs::Dt(_, DtKind::Pi, _, param, abs) => (*param, *abs),
        e => panic!("`{:?}` is not an `Abs::Dt(_, Pi, _, _, _)`.", e),
    }
}

fn must_be_lam(abs: Abs) -> Abs {
    match abs {
        Abs::Lam(_, _, _, abs) => *abs,
        e => panic!("`{:?}` is not an `Abs::Lam(_, _, _, _)`.", e),
    }
}

fn local_dbi(abs: &Abs) -> usize {
    match abs {
        Abs::Var(_, _, dbi) => dbi.0,
        e => panic!("`{:?}` is not an `Abs::Var`.", e),
    }
}

#[test]
fn trans_bot() {
    let surf = parse_str(
        "val a : Type;\n\
         let a = !;",
    )
    .unwrap();
    let mut ctx = trans_decls(surf).unwrap();
    assert_eq!(1, ctx.len());
    let decl = ctx.pop().unwrap();
    println!("{:?}", decl);
    match decl {
        AbsDecl::Both(_ty_abs, _abs, _gi) => {}
        _ => panic!(),
    };
}

#[test]
fn many_decls() {
    let surf = parse_str(
        "val a : Type1;\n\
         let a = Type;\n\
         val b : Type1;\n\
         let b = Type;",
    )
    .unwrap();
    let mut ctx = trans_decls(surf).unwrap();
    assert_eq!(2, ctx.len());
    let decl = ctx.pop().unwrap();
    println!("{:?}", decl);
    match decl {
        AbsDecl::Both(_ty_abs, _abs, _gi) => {}
        _ => panic!(),
    };
    let decl = ctx.pop().unwrap();
    println!("{:?}", decl);
    match decl {
        AbsDecl::Both(_ty_abs, _abs, _gi) => {}
        _ => panic!(),
    };
    assert!(ctx.is_empty());
}

#[test]
fn trans_pi_env() {
    let pi_expr = parse_str("val t : ((a : Type) -> (b : Type(a)) -> Type(b));")
        .unwrap()
        .remove(0)
        .body;
    let pi_abs = trans_expr(&pi_expr, &Vec::new(), &Vec::new()).expect("Parse failed.");
    let (_, bc) = must_be_pi(pi_abs);
    let (b, c) = must_be_pi(bc);
    // the type of `b`, `c` should be _(0), _(0)
    let b = must_be_app(b);
    let c = must_be_app(c);
    assert_eq!(0, local_dbi(&b));
    assert_eq!(0, local_dbi(&c));
}

#[test]
fn trans_pi_shadowing() {
    let code = "val t : ((a : Type) -> (b : Type(a)) -> (b: Type(b)) -> Type(a));";
    let pi_expr = parse_str(code).unwrap().remove(0).body;
    let pi_abs = trans_expr(&pi_expr, &Vec::new(), &Vec::new()).unwrap();
    let (_, bc) = must_be_pi(pi_abs);
    let (b1, bc) = must_be_pi(bc);
    let (b2, c) = must_be_pi(bc);
    // the type of `b1`, `b2`, `c` should be _(0), _(0), _(2)
    let b1 = must_be_app(b1);
    let b2 = must_be_app(b2);
    let c = must_be_app(c);
    assert_eq!(0, local_dbi(&b1));
    assert_eq!(0, local_dbi(&b2));
    assert_eq!(2, local_dbi(&c));
}

#[test]
fn trans_lam() {
    let code = r"let l = \a . \b . \a . b a;";
    let lam_expr = parse_str(code).unwrap().remove(0).body;
    let lam_abs = trans_expr(&lam_expr, &Vec::new(), &Vec::new()).unwrap();
    let abs_lam_ba = must_be_lam(lam_abs);
    let abs_lam_a = must_be_lam(abs_lam_ba);
    match must_be_lam(abs_lam_a) {
        Abs::App(_, b, a) => {
            // lam body should be App(_info, Var(_, _, 1), Var(_, _, 0))
            assert_eq!(1, local_dbi(&b));
            assert_eq!(0, local_dbi(&a));
        }
        _ => panic!(),
    }
}

#[test]
fn parse_expr_consumes_whole_input() {
    assert!(voile::surf::parse_expr(r"\x . x x").is_ok());
    assert!(voile::surf::parse_expr("Type1 Type2").is_ok());
    assert!(voile::surf::parse_expr("(a").is_err());
    assert!(voile::surf::parse_expr("").is_err());
}
