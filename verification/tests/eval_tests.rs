use toylang::env::Env;
use toylang::eval::{evaluate, Expr, Value};

fn num(n: i32) -> Box<Expr> {
    Box::new(Expr::Num(n))
}

fn var(x: &str) -> Box<Expr> {
    Box::new(Expr::Var(x.to_string()))
}

#[test]
fn add_two_numbers() {
    let e = Expr::Add(num(1), num(2));
    assert_eq!(evaluate(&e), Value::Int(3));
}

#[test]
fn add_negative_numbers() {
    let e = Expr::Add(num(-7), num(3));
    assert_eq!(evaluate(&e), Value::Int(-4));
}

#[test]
fn sub_two_numbers() {
    let e = Expr::Sub(num(5), num(3));
    assert_eq!(evaluate(&e), Value::Int(2));
}

#[test]
fn sub_below_zero() {
    let e = Expr::Sub(num(3), num(5));
    assert_eq!(evaluate(&e), Value::Int(-2));
}

#[test]
fn iszero_on_zero() {
    let e = Expr::IsZero(num(0));
    assert_eq!(evaluate(&e), Value::Bool(true));
}

#[test]
fn iszero_on_nonzero() {
    let e = Expr::IsZero(num(41));
    assert_eq!(evaluate(&e), Value::Bool(false));
    let e = Expr::IsZero(num(-1));
    assert_eq!(evaluate(&e), Value::Bool(false));
}

#[test]
fn conditional_takes_then_branch() {
    let e = Expr::IfThenElse(Box::new(Expr::IsZero(num(0))), num(1), num(0));
    assert_eq!(evaluate(&e), Value::Int(1));
}

#[test]
fn conditional_takes_else_branch() {
    let e = Expr::IfThenElse(Box::new(Expr::IsZero(num(3))), num(1), num(0));
    assert_eq!(evaluate(&e), Value::Int(0));
}

#[test]
fn untaken_branch_is_never_evaluated() {
    // The else branch holds an unbound variable; taking the then branch
    // must never touch it.
    let e = Expr::IfThenElse(Box::new(Expr::IsZero(num(0))), num(1), var("nowhere"));
    assert_eq!(evaluate(&e), Value::Int(1));
}

#[test]
fn let_binds_variable_in_body() {
    let e = Expr::LetIn(
        "x".to_string(),
        Box::new(Expr::Sub(num(5), num(3))),
        Box::new(Expr::Sub(var("x"), num(1))),
    );
    assert_eq!(evaluate(&e), Value::Int(1));
}

#[test]
fn inner_let_shadows_outer() {
    let e = Expr::LetIn(
        "x".to_string(),
        num(1),
        Box::new(Expr::LetIn("x".to_string(), num(2), var("x"))),
    );
    assert_eq!(evaluate(&e), Value::Int(2));
}

#[test]
fn closure_application() {
    let f = Expr::Fun("x".to_string(), Box::new(Expr::Add(var("x"), num(1))));
    let e = Expr::App(Box::new(f), num(4));
    assert_eq!(evaluate(&e), Value::Int(5));
}

#[test]
fn closure_captures_creation_environment() {
    let f = Expr::Fun("y".to_string(), Box::new(Expr::Add(var("x"), var("y"))));
    let e = Expr::LetIn(
        "x".to_string(),
        num(10),
        Box::new(Expr::App(Box::new(f), num(5))),
    );
    assert_eq!(evaluate(&e), Value::Int(15));
}

#[test]
fn function_literal_snapshots_environment() {
    let body = Expr::Var("x".to_string());
    let e = Expr::LetIn(
        "x".to_string(),
        num(1),
        Box::new(Expr::Fun("y".to_string(), Box::new(body.clone()))),
    );
    let mut captured = Env::new();
    captured.insert("x".to_string(), Value::Int(1));
    assert_eq!(
        evaluate(&e),
        Value::Closure("y".to_string(), Box::new(body), Box::new(captured))
    );
}

#[test]
fn argument_evaluates_in_caller_scope() {
    // (let x = 2 in fun y -> x + y) applied to (10 - 3): the argument is
    // reduced in the caller's scope, then bound inside the captured one.
    let f = Expr::LetIn(
        "x".to_string(),
        num(2),
        Box::new(Expr::Fun("y".to_string(), Box::new(Expr::Add(var("x"), var("y"))))),
    );
    let e = Expr::App(Box::new(f), Box::new(Expr::Sub(num(10), num(3))));
    assert_eq!(evaluate(&e), Value::Int(9));
}

#[test]
fn environment_insert_overwrites_and_lookup_finds() {
    let mut env = Env::new();
    env.insert("x".to_string(), Value::Int(1));
    env.insert("y".to_string(), Value::Bool(true));
    env.insert("x".to_string(), Value::Int(2));
    assert_eq!(env.lookup("x"), Value::Int(2));
    assert_eq!(env.lookup("y"), Value::Bool(true));
}

#[test]
fn environment_remove_then_insert_again() {
    let mut env = Env::new();
    env.insert("x".to_string(), Value::Int(1));
    env.remove("x");
    env.insert("x".to_string(), Value::Int(7));
    assert_eq!(env.lookup("x"), Value::Int(7));
}

#[test]
fn arithmetic_at_the_integer_limits() {
    let e = Expr::Add(num(i32::MAX), num(0));
    assert_eq!(evaluate(&e), Value::Int(i32::MAX));
    let e = Expr::Sub(num(i32::MIN), num(0));
    assert_eq!(evaluate(&e), Value::Int(i32::MIN));
    let e = Expr::Add(num(i32::MAX), num(i32::MIN));
    assert_eq!(evaluate(&e), Value::Int(-1));
}
