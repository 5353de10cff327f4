//! The static type checker: infers a type for a typed expression or
//! reports a structured type error.

use vstd::prelude::*;
use crate::env::TypeEnv;

verus! {

/// A type of the language: `Int`, `Bool`, or a function type. Equality is
/// structural.
#[derive(Debug, Eq)]
pub enum Type {
    Int,
    Bool,
    Fun(Box<Type>, Box<Type>),
}

impl PartialEq for Type {
    fn eq(&self, other: &Self) -> (r: bool)
        decreases self,
    {
        match (self, other) {
            (Type::Int, Type::Int) => true,
            (Type::Bool, Type::Bool) => true,
            (Type::Fun(p1, r1), Type::Fun(p2, r2)) => (**p1).eq(&**p2) && (**r1).eq(&**r2),
            _ => false,
        }
    }
}

impl vstd::std_specs::cmp::PartialEqSpecImpl for Type {
    open spec fn obeys_eq_spec() -> bool {
        true
    }

    open spec fn eq_spec(&self, other: &Self) -> bool {
        self == other
    }
}

impl Clone for Type {
    fn clone(&self) -> (r: Self)
        ensures
            r == *self,
        decreases self,
    {
        match self {
            Type::Int => Type::Int,
            Type::Bool => Type::Bool,
            Type::Fun(p, ret) => Type::Fun(Box::new((**p).clone()), Box::new((**ret).clone())),
        }
    }
}

/// A recoverable type-checking error.
#[derive(Debug, PartialEq, Eq)]
pub enum TypeError {
    /// The first type was required, the second was found.
    TypeMismatch(Type, Type),
    /// A non-function of the given type was applied.
    NotAFunction(Type),
}

/// Mathematical model of a typed expression: identifiers are character
/// sequences; types appear as they are.
pub enum ExprV {
    Num(int),
    Var(Seq<char>),
    Add(Box<ExprV>, Box<ExprV>),
    Sub(Box<ExprV>, Box<ExprV>),
    IsZero(Box<ExprV>),
    IfThenElse(Box<ExprV>, Box<ExprV>, Box<ExprV>),
    LetIn(Seq<char>, Box<ExprV>, Box<ExprV>),
    LetRecIn(Seq<char>, Seq<char>, Type, Type, Box<ExprV>, Box<ExprV>),
    Fun(Seq<char>, Type, Box<ExprV>),
    App(Box<ExprV>, Box<ExprV>),
}

/// Abstract syntax for typed expressions.
#[derive(Debug, PartialEq)]
pub enum Expr {
    Num(i32),
    Var(String),
    Add(Box<Expr>, Box<Expr>),
    Sub(Box<Expr>, Box<Expr>),
    IsZero(Box<Expr>),
    IfThenElse(Box<Expr>, Box<Expr>, Box<Expr>),
    LetIn(String, Box<Expr>, Box<Expr>),
    /// `LetRecIn(f, x, arg type, return type, body, rest)` binds the
    /// recursive function `f` with parameter `x` over `body`, then types
    /// `rest`.
    LetRecIn(String, String, Type, Type, Box<Expr>, Box<Expr>),
    Fun(String, Type, Box<Expr>),
    App(Box<Expr>, Box<Expr>),
}

/// The model of a typed expression tree.
pub open spec fn expr_view(e: Expr) -> ExprV
    decreases e,
{
    match e {
        Expr::Num(n) => ExprV::Num(n as int),
        Expr::Var(x) => ExprV::Var(x@),
        Expr::Add(e1, e2) => ExprV::Add(Box::new(expr_view(*e1)), Box::new(expr_view(*e2))),
        Expr::Sub(e1, e2) => ExprV::Sub(Box::new(expr_view(*e1)), Box::new(expr_view(*e2))),
        Expr::IsZero(e1) => ExprV::IsZero(Box::new(expr_view(*e1))),
        Expr::IfThenElse(c, t, f) => ExprV::IfThenElse(
            Box::new(expr_view(*c)),
            Box::new(expr_view(*t)),
            Box::new(expr_view(*f)),
        ),
        Expr::LetIn(x, e1, e2) => ExprV::LetIn(
            x@,
            Box::new(expr_view(*e1)),
            Box::new(expr_view(*e2)),
        ),
        Expr::LetRecIn(f, x, arg_t, ret_t, body, rest) => ExprV::LetRecIn(
            f@,
            x@,
            arg_t,
            ret_t,
            Box::new(expr_view(*body)),
            Box::new(expr_view(*rest)),
        ),
        Expr::Fun(x, param_t, body) => ExprV::Fun(x@, param_t, Box::new(expr_view(*body))),
        Expr::App(e1, e2) => ExprV::App(Box::new(expr_view(*e1)), Box::new(expr_view(*e2))),
    }
}

impl View for Expr {
    type V = ExprV;

    open spec fn view(&self) -> ExprV {
        expr_view(*self)
    }
}

/// Outcome of type checking under an environment. `Typed` carries the
/// inferred type and the environment after the traversal (let-bindings
/// persist for the remainder of the call). `Unbound` is the unrecoverable
/// lookup failure on a variable without a binding.
pub enum TypeOutcome {
    Typed(Type, Map<Seq<char>, Type>),
    Failed(TypeError),
    Unbound,
}

/// The type system. Errors of an earlier sub-check short-circuit past
/// later ones, unchanged.
pub open spec fn tc_spec(env: Map<Seq<char>, Type>, e: ExprV) -> TypeOutcome
    decreases e,
{
    match e {
        ExprV::Num(_) => TypeOutcome::Typed(Type::Int, env),
        ExprV::Var(x) => if env.dom().contains(x) {
            TypeOutcome::Typed(env[x], env)
        } else {
            TypeOutcome::Unbound
        },
        ExprV::Add(e1, e2) => match tc_spec(env, *e1) {
            TypeOutcome::Typed(t1, env1) => match tc_spec(env1, *e2) {
                TypeOutcome::Typed(t2, env2) => if t1 == Type::Int && t2 == Type::Int {
                    TypeOutcome::Typed(Type::Int, env2)
                } else {
                    TypeOutcome::Failed(
                        TypeError::TypeMismatch(
                            Type::Int,
                            if t1 != Type::Int {
                                t1
                            } else {
                                t2
                            },
                        ),
                    )
                },
                r => r,
            },
            r => r,
        },
        ExprV::Sub(e1, e2) => match tc_spec(env, *e1) {
            TypeOutcome::Typed(t1, env1) => match tc_spec(env1, *e2) {
                TypeOutcome::Typed(t2, env2) => if t1 == Type::Int && t2 == Type::Int {
                    TypeOutcome::Typed(Type::Int, env2)
                } else {
                    TypeOutcome::Failed(
                        TypeError::TypeMismatch(
                            Type::Int,
                            if t1 != Type::Int {
                                t1
                            } else {
                                t2
                            },
                        ),
                    )
                },
                r => r,
            },
            r => r,
        },
        ExprV::IsZero(e1) => match tc_spec(env, *e1) {
            TypeOutcome::Typed(t, env1) => if t == Type::Int {
                TypeOutcome::Typed(Type::Bool, env1)
            } else {
                TypeOutcome::Failed(TypeError::TypeMismatch(Type::Int, t))
            },
            r => r,
        },
        ExprV::IfThenElse(c, t, f) => match tc_spec(env, *c) {
            TypeOutcome::Typed(t_cond, env1) => if t_cond != Type::Bool {
                TypeOutcome::Failed(TypeError::TypeMismatch(Type::Bool, t_cond))
            } else {
                match tc_spec(env1, *t) {
                    TypeOutcome::Typed(t1, env2) => match tc_spec(env2, *f) {
                        TypeOutcome::Typed(t2, env3) => if t1 == t2 {
                            TypeOutcome::Typed(t1, env3)
                        } else {
                            TypeOutcome::Failed(TypeError::TypeMismatch(t1, t2))
                        },
                        r => r,
                    },
                    r => r,
                }
            },
            r => r,
        },
        ExprV::LetIn(x, e1, e2) => match tc_spec(env, *e1) {
            TypeOutcome::Typed(t1, env1) => tc_spec(env1.insert(x, t1), *e2),
            r => r,
        },
        ExprV::LetRecIn(f, x, arg_t, ret_t, body, rest) => {
            let fun_t = Type::Fun(Box::new(arg_t), Box::new(ret_t));
            let env1 = env.insert(f, fun_t).insert(x, arg_t);
            match tc_spec(env1, *body) {
                TypeOutcome::Typed(t_body, env2) => if t_body != ret_t {
                    TypeOutcome::Failed(TypeError::TypeMismatch(ret_t, t_body))
                } else {
                    tc_spec(env2, *rest)
                },
                r => r,
            }
        },
        ExprV::Fun(x, param_t, body) => match tc_spec(env.insert(x, param_t), *body) {
            TypeOutcome::Typed(t_body, env1) => TypeOutcome::Typed(
                Type::Fun(Box::new(param_t), Box::new(t_body)),
                env1,
            ),
            r => r,
        },
        ExprV::App(func, arg) => match tc_spec(env, *func) {
            TypeOutcome::Typed(t_func, env1) => match tc_spec(env1, *arg) {
                TypeOutcome::Typed(t_arg, env2) => match t_func {
                    Type::Fun(param_t, ret_t) => if *param_t == t_arg {
                        TypeOutcome::Typed(*ret_t, env2)
                    } else {
                        TypeOutcome::Failed(TypeError::TypeMismatch(*param_t, t_arg))
                    },
                    _ => TypeOutcome::Failed(TypeError::NotAFunction(t_func)),
                },
                r => r,
            },
            r => r,
        },
    }
}

/// A variable without a binding is the unrecoverable lookup failure,
/// never a type or a recoverable error.
pub proof fn lemma_tc_var_unbound(env: Map<Seq<char>, Type>, x: Seq<char>)
    requires
        !env.dom().contains(x),
    ensures
        tc_spec(env, ExprV::Var(x)) == TypeOutcome::Unbound,
{
}

/// Type checks an expression in the current type environment. The
/// environment is mutated in place; bindings made by `let` forms persist
/// for the remainder of the call.
fn type_check(expr: &Expr, env: &mut TypeEnv) -> (r: Result<Type, TypeError>)
    requires
        !(tc_spec(old(env)@, expr@) matches TypeOutcome::Unbound),
    ensures
        match tc_spec(old(env)@, expr@) {
            TypeOutcome::Typed(t, envf) => r == Ok::<Type, TypeError>(t) && final(env)@ == envf,
            TypeOutcome::Failed(e0) => r == Err::<Type, TypeError>(e0),
            TypeOutcome::Unbound => false,
        },
    decreases expr,
{
    match expr {
        Expr::Num(_) => Ok(Type::Int),
        Expr::Var(x) => Ok(env.lookup(x.as_str())),
        Expr::Add(e1, e2) => {
            let t1 = match type_check(e1, env) {
                Ok(t) => t,
                Err(er) => {
                    return Err(er);
                },
            };
            let t2 = match type_check(e2, env) {
                Ok(t) => t,
                Err(er) => {
                    return Err(er);
                },
            };
            if t1 == Type::Int && t2 == Type::Int {
                Ok(Type::Int)
            } else {
                Err(
                    TypeError::TypeMismatch(
                        Type::Int,
                        if t1 != Type::Int {
                            t1
                        } else {
                            t2
                        },
                    ),
                )
            }
        },
        Expr::Sub(e1, e2) => {
            let t1 = match type_check(e1, env) {
                Ok(t) => t,
                Err(er) => {
                    return Err(er);
                },
            };
            let t2 = match type_check(e2, env) {
                Ok(t) => t,
                Err(er) => {
                    return Err(er);
                },
            };
            if t1 == Type::Int && t2 == Type::Int {
                Ok(Type::Int)
            } else {
                Err(
                    TypeError::TypeMismatch(
                        Type::Int,
                        if t1 != Type::Int {
                            t1
                        } else {
                            t2
                        },
                    ),
                )
            }
        },
        Expr::IsZero(e1) => {
            let t = match type_check(e1, env) {
                Ok(t) => t,
                Err(er) => {
                    return Err(er);
                },
            };
            if t == Type::Int {
                Ok(Type::Bool)
            } else {
                Err(TypeError::TypeMismatch(Type::Int, t))
            }
        },
        Expr::IfThenElse(c, t_branch, f_branch) => {
            let t_cond = match type_check(c, env) {
                Ok(t) => t,
                Err(er) => {
                    return Err(er);
                },
            };
            if t_cond != Type::Bool {
                return Err(TypeError::TypeMismatch(Type::Bool, t_cond));
            }
            let t1 = match type_check(t_branch, env) {
                Ok(t) => t,
                Err(er) => {
                    return Err(er);
                },
            };
            let t2 = match type_check(f_branch, env) {
                Ok(t) => t,
                Err(er) => {
                    return Err(er);
                },
            };
            if t1 == t2 {
                Ok(t1)
            } else {
                Err(TypeError::TypeMismatch(t1, t2))
            }
        },
        Expr::LetIn(x, e1, e2) => {
            let t1 = match type_check(e1, env) {
                Ok(t) => t,
                Err(er) => {
                    return Err(er);
                },
            };
            env.insert(x.clone(), t1);
            type_check(e2, env)
        },
        Expr::LetRecIn(func_name, arg_name, arg_type, body_type, body, rest) => {
            let fun_type = Type::Fun(Box::new(arg_type.clone()), Box::new(body_type.clone()));
            env.insert(func_name.clone(), fun_type);
            env.insert(arg_name.clone(), arg_type.clone());
            let t_body = match type_check(body, env) {
                Ok(t) => t,
                Err(er) => {
                    return Err(er);
                },
            };
            if t_body != *body_type {
                return Err(TypeError::TypeMismatch(body_type.clone(), t_body));
            }
            type_check(rest, env)
        },
        Expr::Fun(param, param_type, body) => {
            env.insert(param.clone(), param_type.clone());
            let t_body = match type_check(body, env) {
                Ok(t) => t,
                Err(er) => {
                    return Err(er);
                },
            };
            Ok(Type::Fun(Box::new(param_type.clone()), Box::new(t_body)))
        },
        Expr::App(func, arg) => {
            let t_func = match type_check(func, env) {
                Ok(t) => t,
                Err(er) => {
                    return Err(er);
                },
            };
            let t_arg = match type_check(arg, env) {
                Ok(t) => t,
                Err(er) => {
                    return Err(er);
                },
            };
            match t_func {
                Type::Fun(param_type, return_type) => {
                    if *param_type == t_arg {
                        Ok(*return_type)
                    } else {
                        Err(TypeError::TypeMismatch(*param_type, t_arg))
                    }
                },
                _ => Err(TypeError::NotAFunction(t_func)),
            }
        },
    }
}

/// Infers the type of an expression under an empty environment, or
/// reports the first type error met on the traversal. The expression
/// must be well-scoped: an unbound variable is an unrecoverable
/// precondition violation, not a `TypeError`.
pub fn type_of(expr: &Expr) -> (r: Result<Type, TypeError>)
    requires
        !(tc_spec(Map::empty(), expr@) matches TypeOutcome::Unbound),
    ensures
        match tc_spec(Map::empty(), expr@) {
            TypeOutcome::Typed(t, _) => r == Ok::<Type, TypeError>(t),
            TypeOutcome::Failed(e0) => r == Err::<Type, TypeError>(e0),
            TypeOutcome::Unbound => false,
        },
{
    let mut env = TypeEnv::new();
    type_check(expr, &mut env)
}

} // verus!
