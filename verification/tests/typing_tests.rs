use toylang::env::TypeEnv;
use toylang::typing::{type_of, Expr, Type, TypeError};

fn num(n: i32) -> Box<Expr> {
    Box::new(Expr::Num(n))
}

fn var(x: &str) -> Box<Expr> {
    Box::new(Expr::Var(x.to_string()))
}

#[test]
fn number_types_to_int() {
    assert_eq!(type_of(&Expr::Num(0)), Ok(Type::Int));
}

#[test]
fn add_of_ints_types_to_int() {
    let e = Expr::Add(num(1), num(2));
    assert_eq!(type_of(&e), Ok(Type::Int));
}

#[test]
fn add_with_bool_operand_is_a_mismatch() {
    let e = Expr::Add(num(1), Box::new(Expr::IsZero(num(1))));
    assert_eq!(
        type_of(&e),
        Err(TypeError::TypeMismatch(Type::Int, Type::Bool))
    );
}

#[test]
fn sub_with_bool_operand_reports_first_bad_operand() {
    let e = Expr::Sub(Box::new(Expr::IsZero(num(0))), Box::new(Expr::IsZero(num(1))));
    assert_eq!(
        type_of(&e),
        Err(TypeError::TypeMismatch(Type::Int, Type::Bool))
    );
}

#[test]
fn iszero_requires_int_operand() {
    let e = Expr::IsZero(Box::new(Expr::IsZero(num(0))));
    assert_eq!(
        type_of(&e),
        Err(TypeError::TypeMismatch(Type::Int, Type::Bool))
    );
}

#[test]
fn condition_must_be_bool() {
    let e = Expr::IfThenElse(num(1), num(2), num(3));
    assert_eq!(
        type_of(&e),
        Err(TypeError::TypeMismatch(Type::Bool, Type::Int))
    );
}

#[test]
fn branches_must_agree() {
    let e = Expr::IfThenElse(Box::new(Expr::IsZero(num(0))), num(1), Box::new(Expr::IsZero(num(1))));
    assert_eq!(
        type_of(&e),
        Err(TypeError::TypeMismatch(Type::Int, Type::Bool))
    );
}

#[test]
fn applying_a_number_is_not_a_function() {
    let e = Expr::App(num(1), num(2));
    assert_eq!(type_of(&e), Err(TypeError::NotAFunction(Type::Int)));
}

#[test]
fn argument_must_match_parameter_type() {
    let f = Expr::Fun("x".to_string(), Type::Int, var("x"));
    let e = Expr::App(Box::new(f), Box::new(Expr::IsZero(num(0))));
    assert_eq!(
        type_of(&e),
        Err(TypeError::TypeMismatch(Type::Int, Type::Bool))
    );
}

#[test]
fn let_binding_types_its_body() {
    let e = Expr::LetIn("x".to_string(), num(1), var("x"));
    assert_eq!(type_of(&e), Ok(Type::Int));
}

#[test]
fn let_binding_persists_into_sibling() {
    // The checker does not undo a let binding on scope exit; a sibling of
    // the let still sees it.
    let e = Expr::Add(
        Box::new(Expr::LetIn("x".to_string(), num(1), num(2))),
        var("x"),
    );
    assert_eq!(type_of(&e), Ok(Type::Int));
}

#[test]
fn function_over_function_parameter() {
    let e = Expr::Fun(
        "f".to_string(),
        Type::Fun(Box::new(Type::Int), Box::new(Type::Bool)),
        Box::new(Expr::IfThenElse(
            Box::new(Expr::App(var("f"), num(3))),
            num(11),
            num(22),
        )),
    );
    assert_eq!(
        type_of(&e),
        Ok(Type::Fun(
            Box::new(Type::Fun(Box::new(Type::Int), Box::new(Type::Bool))),
            Box::new(Type::Int),
        ))
    );
}

#[test]
fn recursive_function_types_to_int_to_int() {
    let body = Expr::IfThenElse(
        Box::new(Expr::IsZero(var("x"))),
        num(0),
        Box::new(Expr::Add(
            var("x"),
            Box::new(Expr::App(var("f"), Box::new(Expr::Sub(var("x"), num(1))))),
        )),
    );
    let e = Expr::LetRecIn(
        "f".to_string(),
        "x".to_string(),
        Type::Int,
        Type::Int,
        Box::new(body),
        var("f"),
    );
    assert_eq!(
        type_of(&e),
        Ok(Type::Fun(Box::new(Type::Int), Box::new(Type::Int)))
    );
}

#[test]
fn recursive_function_body_must_match_declared_type() {
    let e = Expr::LetRecIn(
        "f".to_string(),
        "x".to_string(),
        Type::Int,
        Type::Int,
        Box::new(Expr::IsZero(var("x"))),
        var("f"),
    );
    assert_eq!(
        type_of(&e),
        Err(TypeError::TypeMismatch(Type::Int, Type::Bool))
    );
}

#[test]
fn type_environment_insert_overwrites() {
    let mut env = TypeEnv::new();
    env.insert("x".to_string(), Type::Int);
    env.insert("y".to_string(), Type::Bool);
    env.insert("x".to_string(), Type::Fun(Box::new(Type::Int), Box::new(Type::Int)));
    assert_eq!(
        env.lookup("x"),
        Type::Fun(Box::new(Type::Int), Box::new(Type::Int))
    );
    assert_eq!(env.lookup("y"), Type::Bool);
}

#[test]
fn function_types_compare_structurally() {
    let a = Type::Fun(Box::new(Type::Int), Box::new(Type::Bool));
    let b = Type::Fun(Box::new(Type::Int), Box::new(Type::Bool));
    let c = Type::Fun(Box::new(Type::Bool), Box::new(Type::Int));
    assert_eq!(a, b);
    assert_ne!(a, c);
    assert_ne!(Type::Int, Type::Bool);
}
