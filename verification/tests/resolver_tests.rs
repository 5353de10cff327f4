use toylang::named::NamedExpr;
use toylang::nameless::{to_nameless, NamelessExpr};
use toylang::nameless_env::NamelessEnv;

fn num(n: i32) -> Box<NamedExpr> {
    Box::new(NamedExpr::Num(n))
}

fn var(x: &str) -> Box<NamedExpr> {
    Box::new(NamedExpr::Var(x.to_string()))
}

fn rnum(n: i32) -> Box<NamelessExpr> {
    Box::new(NamelessExpr::Num(n))
}

fn rvar(i: i32) -> Box<NamelessExpr> {
    Box::new(NamelessExpr::Var(i))
}

#[test]
fn fun_parameter_resolves_to_index_zero() {
    let e = NamedExpr::Fun(
        "x".to_string(),
        Box::new(NamedExpr::Sub(var("x"), num(1))),
    );
    assert_eq!(
        to_nameless(&e),
        NamelessExpr::Fun(Box::new(NamelessExpr::Sub(rvar(0), rnum(1))))
    );
}

#[test]
fn nested_lets_resolve_to_their_depths() {
    let e = NamedExpr::LetIn(
        "x".to_string(),
        num(1),
        Box::new(NamedExpr::LetIn(
            "y".to_string(),
            num(2),
            Box::new(NamedExpr::Add(var("x"), var("y"))),
        )),
    );
    assert_eq!(
        to_nameless(&e),
        NamelessExpr::LetIn(
            rnum(1),
            Box::new(NamelessExpr::LetIn(
                rnum(2),
                Box::new(NamelessExpr::Add(rvar(1), rvar(0))),
            )),
        )
    );
}

#[test]
fn shadowing_resolves_to_innermost_binder() {
    let e = NamedExpr::LetIn(
        "x".to_string(),
        num(1),
        Box::new(NamedExpr::LetIn("x".to_string(), num(2), var("x"))),
    );
    assert_eq!(
        to_nameless(&e),
        NamelessExpr::LetIn(
            rnum(1),
            Box::new(NamelessExpr::LetIn(rnum(2), rvar(0))),
        )
    );
}

#[test]
fn bound_expression_sees_only_outer_scope() {
    // In let y = x in y, the bound expression x refers to the outer
    // binder, not to y.
    let e = NamedExpr::LetIn(
        "x".to_string(),
        num(1),
        Box::new(NamedExpr::LetIn("y".to_string(), var("x"), var("y"))),
    );
    assert_eq!(
        to_nameless(&e),
        NamelessExpr::LetIn(
            rnum(1),
            Box::new(NamelessExpr::LetIn(rvar(0), rvar(0))),
        )
    );
}

#[test]
fn application_and_conditional_keep_their_shape() {
    let e = NamedExpr::App(
        Box::new(NamedExpr::Fun(
            "b".to_string(),
            Box::new(NamedExpr::IfThenElse(var("b"), num(1), num(0))),
        )),
        Box::new(NamedExpr::IsZero(num(0))),
    );
    assert_eq!(
        to_nameless(&e),
        NamelessExpr::App(
            Box::new(NamelessExpr::Fun(Box::new(NamelessExpr::IfThenElse(
                rvar(0),
                rnum(1),
                rnum(0),
            )))),
            Box::new(NamelessExpr::IsZero(rnum(0))),
        )
    );
}

#[test]
fn resolving_twice_yields_identical_indices() {
    let e = NamedExpr::Fun(
        "x".to_string(),
        Box::new(NamedExpr::LetIn(
            "y".to_string(),
            var("x"),
            Box::new(NamedExpr::Add(var("x"), var("y"))),
        )),
    );
    let first = to_nameless(&e);
    let second = to_nameless(&e.clone());
    assert_eq!(first, second);
}

#[test]
fn scope_stack_indexes_from_the_front() {
    let mut env = NamelessEnv::new();
    env.insert("a".to_string());
    env.insert("b".to_string());
    assert_eq!(env.index_of("b"), 0);
    assert_eq!(env.index_of("a"), 1);
    let cloned = env.clone();
    assert_eq!(cloned.index_of("a"), 1);
}
