//! The evaluator: reduces an expression to a runtime value under an
//! environment mutated in place along the traversal.

use vstd::prelude::*;
use crate::env::{Env, env_map};

verus! {

/// Mathematical model of an (untyped) expression: integers are unbounded
/// and identifiers are character sequences.
pub enum ExprV {
    Num(int),
    Var(Seq<char>),
    Add(Box<ExprV>, Box<ExprV>),
    Sub(Box<ExprV>, Box<ExprV>),
    IsZero(Box<ExprV>),
    IfThenElse(Box<ExprV>, Box<ExprV>, Box<ExprV>),
    LetIn(Seq<char>, Box<ExprV>, Box<ExprV>),
    Fun(Seq<char>, Box<ExprV>),
    App(Box<ExprV>, Box<ExprV>),
}

/// Abstract syntax for expressions.
#[derive(Debug, PartialEq)]
pub enum Expr {
    Num(i32),
    Var(String),
    Add(Box<Expr>, Box<Expr>),
    Sub(Box<Expr>, Box<Expr>),
    IsZero(Box<Expr>),
    IfThenElse(Box<Expr>, Box<Expr>, Box<Expr>),
    LetIn(String, Box<Expr>, Box<Expr>),
    Fun(String, Box<Expr>),
    App(Box<Expr>, Box<Expr>),
}

/// The model of an expression tree.
pub open spec fn expr_view(e: Expr) -> ExprV
    decreases e,
{
    match e {
        Expr::Num(n) => ExprV::Num(n as int),
        Expr::Var(x) => ExprV::Var(x@),
        Expr::Add(e1, e2) => ExprV::Add(Box::new(expr_view(*e1)), Box::new(expr_view(*e2))),
        Expr::Sub(e1, e2) => ExprV::Sub(Box::new(expr_view(*e1)), Box::new(expr_view(*e2))),
        Expr::IsZero(e1) => ExprV::IsZero(Box::new(expr_view(*e1))),
        Expr::IfThenElse(c, t, f) => ExprV::IfThenElse(
            Box::new(expr_view(*c)),
            Box::new(expr_view(*t)),
            Box::new(expr_view(*f)),
        ),
        Expr::LetIn(x, e1, e2) => ExprV::LetIn(
            x@,
            Box::new(expr_view(*e1)),
            Box::new(expr_view(*e2)),
        ),
        Expr::Fun(x, body) => ExprV::Fun(x@, Box::new(expr_view(*body))),
        Expr::App(e1, e2) => ExprV::App(Box::new(expr_view(*e1)), Box::new(expr_view(*e2))),
    }
}

impl View for Expr {
    type V = ExprV;

    open spec fn view(&self) -> ExprV {
        expr_view(*self)
    }
}

impl Clone for Expr {
    fn clone(&self) -> (r: Self)
        ensures
            r == *self,
        decreases self,
    {
        match self {
            Expr::Num(n) => Expr::Num(*n),
            Expr::Var(x) => Expr::Var(x.clone()),
            Expr::Add(e1, e2) => Expr::Add(Box::new((**e1).clone()), Box::new((**e2).clone())),
            Expr::Sub(e1, e2) => Expr::Sub(Box::new((**e1).clone()), Box::new((**e2).clone())),
            Expr::IsZero(e1) => Expr::IsZero(Box::new((**e1).clone())),
            Expr::IfThenElse(c, t, f) => Expr::IfThenElse(
                Box::new((**c).clone()),
                Box::new((**t).clone()),
                Box::new((**f).clone()),
            ),
            Expr::LetIn(x, e1, e2) => Expr::LetIn(
                x.clone(),
                Box::new((**e1).clone()),
                Box::new((**e2).clone()),
            ),
            Expr::Fun(x, body) => Expr::Fun(x.clone(), Box::new((**body).clone())),
            Expr::App(e1, e2) => Expr::App(Box::new((**e1).clone()), Box::new((**e2).clone())),
        }
    }
}

/// Mathematical model of a runtime value. A closure holds its parameter
/// name, its body, and the captured environment as a map.
pub enum ValueV {
    Int(int),
    Bool(bool),
    Closure(Seq<char>, Box<ExprV>, Map<Seq<char>, ValueV>),
}

/// Abstract syntax for runtime values. A closure owns an independent
/// snapshot of the environment it was created under.
#[derive(Debug, PartialEq)]
pub enum Value {
    Int(i32),
    Bool(bool),
    Closure(String, Box<Expr>, Box<Env>),
}

/// The model of a runtime value.
pub open spec fn value_view(v: Value) -> ValueV
    decreases v,
{
    match v {
        Value::Int(i) => ValueV::Int(i as int),
        Value::Bool(b) => ValueV::Bool(b),
        Value::Closure(x, body, cenv) => ValueV::Closure(
            x@,
            Box::new(expr_view(*body)),
            env_map(*cenv),
        ),
    }
}

impl View for Value {
    type V = ValueV;

    open spec fn view(&self) -> ValueV {
        value_view(*self)
    }
}

impl Clone for Value {
    fn clone(&self) -> (r: Self)
        ensures
            r == *self,
        decreases self,
    {
        match self {
            Value::Int(i) => Value::Int(*i),
            Value::Bool(b) => Value::Bool(*b),
            Value::Closure(x, body, cenv) => Value::Closure(
                x.clone(),
                Box::new((**body).clone()),
                Box::new((**cenv).clone()),
            ),
        }
    }
}

/// Outcome of evaluating an expression with a given amount of fuel.
/// `Val` carries the value and the environment after the traversal.
/// `Unbound` is a variable without a binding; `Stuck` an operand or a
/// condition of the wrong shape; `Overflow` an arithmetic result outside
/// the machine-integer range. Those three abort evaluation. `OutOfFuel`
/// only means the fuel bound was too small for this expression.
pub enum EvalOutcome {
    Val(ValueV, Map<Seq<char>, ValueV>),
    Unbound,
    Stuck,
    Overflow,
    OutOfFuel,
}

/// The evaluation semantics, fuelled to keep it well-founded: only the
/// step from an application into the applied closure's body consumes
/// fuel. Operands evaluate left to right; exactly one branch of a
/// conditional is evaluated; `let` deletes its binding on exit; a
/// closure captures the environment at creation.
pub open spec fn eval_spec(fuel: nat, env: Map<Seq<char>, ValueV>, e: ExprV) -> EvalOutcome
    decreases fuel, e,
{
    match e {
        ExprV::Num(n) => EvalOutcome::Val(ValueV::Int(n), env),
        ExprV::Var(x) => if env.dom().contains(x) {
            EvalOutcome::Val(env[x], env)
        } else {
            EvalOutcome::Unbound
        },
        ExprV::Add(e1, e2) => match eval_spec(fuel, env, *e1) {
            EvalOutcome::Val(v1, env1) => match eval_spec(fuel, env1, *e2) {
                EvalOutcome::Val(v2, env2) => match (v1, v2) {
                    (ValueV::Int(i1), ValueV::Int(i2)) => if i32::MIN <= i1 + i2 <= i32::MAX {
                        EvalOutcome::Val(ValueV::Int(i1 + i2), env2)
                    } else {
                        EvalOutcome::Overflow
                    },
                    _ => EvalOutcome::Stuck,
                },
                r => r,
            },
            r => r,
        },
        ExprV::Sub(e1, e2) => match eval_spec(fuel, env, *e1) {
            EvalOutcome::Val(v1, env1) => match eval_spec(fuel, env1, *e2) {
                EvalOutcome::Val(v2, env2) => match (v1, v2) {
                    (ValueV::Int(i1), ValueV::Int(i2)) => if i32::MIN <= i1 - i2 <= i32::MAX {
                        EvalOutcome::Val(ValueV::Int(i1 - i2), env2)
                    } else {
                        EvalOutcome::Overflow
                    },
                    _ => EvalOutcome::Stuck,
                },
                r => r,
            },
            r => r,
        },
        ExprV::IsZero(e1) => match eval_spec(fuel, env, *e1) {
            EvalOutcome::Val(v1, env1) => match v1 {
                ValueV::Int(i) => EvalOutcome::Val(ValueV::Bool(i == 0), env1),
                _ => EvalOutcome::Stuck,
            },
            r => r,
        },
        ExprV::IfThenElse(c, t, f) => match eval_spec(fuel, env, *c) {
            EvalOutcome::Val(vc, env1) => match vc {
                ValueV::Bool(b) => if b {
                    eval_spec(fuel, env1, *t)
                } else {
                    eval_spec(fuel, env1, *f)
                },
                _ => EvalOutcome::Stuck,
            },
            r => r,
        },
        ExprV::LetIn(x, e1, e2) => match eval_spec(fuel, env, *e1) {
            EvalOutcome::Val(v1, env1) => match eval_spec(fuel, env1.insert(x, v1), *e2) {
                EvalOutcome::Val(v2, env2) => EvalOutcome::Val(v2, env2.remove(x)),
                r => r,
            },
            r => r,
        },
        ExprV::Fun(x, body) => EvalOutcome::Val(ValueV::Closure(x, body, env), env),
        ExprV::App(e1, e2) => match eval_spec(fuel, env, *e1) {
            EvalOutcome::Val(vf, env1) => match vf {
                ValueV::Closure(x, body, cenv) => match eval_spec(fuel, env1, *e2) {
                    EvalOutcome::Val(v2, env2) => if fuel == 0 {
                        EvalOutcome::OutOfFuel
                    } else {
                        match eval_spec((fuel - 1) as nat, cenv.insert(x, v2), *body) {
                            EvalOutcome::Val(vb, _) => EvalOutcome::Val(vb, env2),
                            r => r,
                        }
                    },
                    r => r,
                },
                _ => EvalOutcome::Stuck,
            },
            r => r,
        },
    }
}

/// For all integers `a` and `b`, `Add(Num(a), Num(b))` evaluates to
/// `Int(a + b)` when the sum is representable, and to the overflow
/// failure otherwise; the environment is left unchanged.
pub proof fn lemma_eval_add(fuel: nat, env: Map<Seq<char>, ValueV>, a: int, b: int)
    ensures
        ({
            let r = eval_spec(
                fuel,
                env,
                ExprV::Add(Box::new(ExprV::Num(a)), Box::new(ExprV::Num(b))),
            );
            if i32::MIN <= a + b <= i32::MAX {
                r == EvalOutcome::Val(ValueV::Int(a + b), env)
            } else {
                r == EvalOutcome::Overflow
            }
        }),
{
    assert(eval_spec(fuel, env, ExprV::Num(a)) == EvalOutcome::Val(ValueV::Int(a), env));
    assert(eval_spec(fuel, env, ExprV::Num(b)) == EvalOutcome::Val(ValueV::Int(b), env));
}

/// For all integers `a` and `b`, `Sub(Num(a), Num(b))` evaluates to
/// `Int(a - b)` when the difference is representable, and to the
/// overflow failure otherwise; the environment is left unchanged.
pub proof fn lemma_eval_sub(fuel: nat, env: Map<Seq<char>, ValueV>, a: int, b: int)
    ensures
        ({
            let r = eval_spec(
                fuel,
                env,
                ExprV::Sub(Box::new(ExprV::Num(a)), Box::new(ExprV::Num(b))),
            );
            if i32::MIN <= a - b <= i32::MAX {
                r == EvalOutcome::Val(ValueV::Int(a - b), env)
            } else {
                r == EvalOutcome::Overflow
            }
        }),
{
    assert(eval_spec(fuel, env, ExprV::Num(a)) == EvalOutcome::Val(ValueV::Int(a), env));
    assert(eval_spec(fuel, env, ExprV::Num(b)) == EvalOutcome::Val(ValueV::Int(b), env));
}

/// `IsZero(Num(n))` evaluates to `Bool(true)` exactly when `n` is zero,
/// and to `Bool(false)` for every other integer.
pub proof fn lemma_eval_iszero(fuel: nat, env: Map<Seq<char>, ValueV>, n: int)
    ensures
        eval_spec(fuel, env, ExprV::IsZero(Box::new(ExprV::Num(n)))) == EvalOutcome::Val(
            ValueV::Bool(n == 0),
            env,
        ),
{
    assert(eval_spec(fuel, env, ExprV::Num(n)) == EvalOutcome::Val(ValueV::Int(n), env));
}

/// When a `let` exits, its binding is deleted, not restored: after the
/// body of `LetIn(x, _, _)` the variable `x` is unbound, even where it
/// shadowed an outer binding. A sibling subtree can never see the inner
/// binding.
pub proof fn lemma_eval_let_unbinds(
    fuel: nat,
    env: Map<Seq<char>, ValueV>,
    x: Seq<char>,
    e1: ExprV,
    e2: ExprV,
)
    ensures
        eval_spec(fuel, env, ExprV::LetIn(x, Box::new(e1), Box::new(e2))) matches
            EvalOutcome::Val(_, envf) ==> !envf.dom().contains(x),
{
}

/// A function literal evaluates to a closure capturing the environment
/// exactly as it is at creation; later changes to the evaluating scope
/// cannot affect it.
pub proof fn lemma_eval_fun_captures(
    fuel: nat,
    env: Map<Seq<char>, ValueV>,
    x: Seq<char>,
    body: ExprV,
)
    ensures
        eval_spec(fuel, env, ExprV::Fun(x, Box::new(body))) == EvalOutcome::Val(
            ValueV::Closure(x, Box::new(body), env),
            env,
        ),
{
}

/// An unbound variable is the unbound-identifier failure, never a value.
pub proof fn lemma_eval_var_unbound(fuel: nat, env: Map<Seq<char>, ValueV>, x: Seq<char>)
    requires
        !env.dom().contains(x),
    ensures
        eval_spec(fuel, env, ExprV::Var(x)) == EvalOutcome::Unbound,
{
}

/// Fuel only cuts evaluations short, it never changes them: an outcome
/// other than `OutOfFuel` is the outcome under every larger fuel bound
/// as well.
pub proof fn lemma_eval_fuel_monotonic(f1: nat, f2: nat, env: Map<Seq<char>, ValueV>, e: ExprV)
    requires
        f1 <= f2,
        !(eval_spec(f1, env, e) matches EvalOutcome::OutOfFuel),
    ensures
        eval_spec(f2, env, e) == eval_spec(f1, env, e),
    decreases f1, e,
{
    match e {
        ExprV::Num(_) => {},
        ExprV::Var(_) => {},
        ExprV::Add(e1, e2) => {
            lemma_eval_fuel_monotonic(f1, f2, env, *e1);
            match eval_spec(f1, env, *e1) {
                EvalOutcome::Val(_, env1) => {
                    lemma_eval_fuel_monotonic(f1, f2, env1, *e2);
                },
                _ => {},
            }
        },
        ExprV::Sub(e1, e2) => {
            lemma_eval_fuel_monotonic(f1, f2, env, *e1);
            match eval_spec(f1, env, *e1) {
                EvalOutcome::Val(_, env1) => {
                    lemma_eval_fuel_monotonic(f1, f2, env1, *e2);
                },
                _ => {},
            }
        },
        ExprV::IsZero(e1) => {
            lemma_eval_fuel_monotonic(f1, f2, env, *e1);
        },
        ExprV::IfThenElse(c, t, f) => {
            lemma_eval_fuel_monotonic(f1, f2, env, *c);
            match eval_spec(f1, env, *c) {
                EvalOutcome::Val(ValueV::Bool(b), env1) => {
                    if b {
                        lemma_eval_fuel_monotonic(f1, f2, env1, *t);
                    } else {
                        lemma_eval_fuel_monotonic(f1, f2, env1, *f);
                    }
                },
                _ => {},
            }
        },
        ExprV::LetIn(x, e1, e2) => {
            lemma_eval_fuel_monotonic(f1, f2, env, *e1);
            match eval_spec(f1, env, *e1) {
                EvalOutcome::Val(v1, env1) => {
                    lemma_eval_fuel_monotonic(f1, f2, env1.insert(x, v1), *e2);
                },
                _ => {},
            }
        },
        ExprV::Fun(_, _) => {},
        ExprV::App(e1, e2) => {
            lemma_eval_fuel_monotonic(f1, f2, env, *e1);
            match eval_spec(f1, env, *e1) {
                EvalOutcome::Val(ValueV::Closure(x, body, cenv), env1) => {
                    lemma_eval_fuel_monotonic(f1, f2, env1, *e2);
                    match eval_spec(f1, env1, *e2) {
                        EvalOutcome::Val(v2, _) => {
                            if f1 != 0 {
                                lemma_eval_fuel_monotonic(
                                    (f1 - 1) as nat,
                                    (f2 - 1) as nat,
                                    cenv.insert(x, v2),
                                    *body,
                                );
                            }
                        },
                        _ => {},
                    }
                },
                _ => {},
            }
        },
    }
}

/// Any two fuel bounds large enough to finish an evaluation finish it
/// with the same value and the same environment: the fuel in
/// [`eval_spec`] is a technical bound, not a semantic choice.
pub proof fn lemma_eval_value_unique(f1: nat, f2: nat, env: Map<Seq<char>, ValueV>, e: ExprV)
    requires
        eval_spec(f1, env, e) matches EvalOutcome::Val(_, _),
        eval_spec(f2, env, e) matches EvalOutcome::Val(_, _),
    ensures
        eval_spec(f1, env, e) == eval_spec(f2, env, e),
{
    if f1 <= f2 {
        lemma_eval_fuel_monotonic(f1, f2, env, e);
    } else {
        lemma_eval_fuel_monotonic(f2, f1, env, e);
    }
}

/// Evaluates an expression, mutating the environment in place: `let`
/// binds on entry and deletes its binding on exit; closure application
/// works on a copy of the captured environment.
fn eval(expr: &Expr, env: &mut Env, Ghost(fuel): Ghost<nat>) -> (v: Value)
    requires
        eval_spec(fuel, old(env)@, expr@) matches EvalOutcome::Val(_, _),
    ensures
        eval_spec(fuel, old(env)@, expr@) == EvalOutcome::Val(value_view(v), final(env)@),
    decreases fuel, expr,
{
    match expr {
        Expr::Num(n) => Value::Int(*n),
        Expr::Var(x) => env.lookup(x.as_str()),
        Expr::Add(e1, e2) => {
            let v1 = eval(e1, env, Ghost(fuel));
            let v2 = eval(e2, env, Ghost(fuel));
            match (v1, v2) {
                (Value::Int(i1), Value::Int(i2)) => Value::Int(i1 + i2),
                _ => {
                    unreached()
                },
            }
        },
        Expr::Sub(e1, e2) => {
            let v1 = eval(e1, env, Ghost(fuel));
            let v2 = eval(e2, env, Ghost(fuel));
            match (v1, v2) {
                (Value::Int(i1), Value::Int(i2)) => Value::Int(i1 - i2),
                _ => {
                    unreached()
                },
            }
        },
        Expr::IsZero(e1) => {
            let v1 = eval(e1, env, Ghost(fuel));
            match v1 {
                Value::Int(i) => Value::Bool(i == 0),
                _ => {
                    unreached()
                },
            }
        },
        Expr::IfThenElse(c, t, f) => {
            let vc = eval(c, env, Ghost(fuel));
            match vc {
                Value::Bool(b) => {
                    if b {
                        eval(t, env, Ghost(fuel))
                    } else {
                        eval(f, env, Ghost(fuel))
                    }
                },
                _ => {
                    unreached()
                },
            }
        },
        Expr::LetIn(x, e1, e2) => {
            let v1 = eval(e1, env, Ghost(fuel));
            env.insert(x.clone(), v1);
            let v2 = eval(e2, env, Ghost(fuel));
            env.remove(x.as_str());
            v2
        },
        Expr::Fun(x, body) => {
            Value::Closure(x.clone(), Box::new((**body).clone()), Box::new(env.clone()))
        },
        Expr::App(e1, e2) => {
            let vf = eval(e1, env, Ghost(fuel));
            match vf {
                Value::Closure(x, body, cenv) => {
                    let va = eval(e2, env, Ghost(fuel));
                    let mut call_env: Env = *cenv;
                    call_env.insert(x, va);
                    eval(&*body, &mut call_env, Ghost((fuel - 1) as nat))
                },
                _ => {
                    unreached()
                },
            }
        },
    }
}

/// Evaluates an expression under an empty environment. The expression
/// must evaluate cleanly: a reached unbound variable, an ill-typed
/// operation or an arithmetic overflow is an unrecoverable precondition
/// violation, and an evaluation that never finishes has no fuel bound at
/// all.
pub fn evaluate(expr: &Expr) -> (v: Value)
    requires
        exists|fuel: nat|
            (#[trigger] eval_spec(fuel, Map::empty(), expr@)) matches EvalOutcome::Val(_, _),
    ensures
        exists|fuel: nat|
            (#[trigger] eval_spec(fuel, Map::empty(), expr@)) matches EvalOutcome::Val(v0, _)
                && v0 == value_view(v),
{
    let ghost fuel0 = choose|fuel: nat|
        (#[trigger] eval_spec(fuel, Map::empty(), expr@)) matches EvalOutcome::Val(_, _);
    let mut env = Env::new();
    eval(expr, &mut env, Ghost(fuel0))
}

} // verus!

