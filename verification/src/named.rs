//! The named (untyped) expression grammar, input of the resolver.

use vstd::prelude::*;

verus! {

/// Mathematical model of a named expression: integers are unbounded and
/// identifiers are character sequences.
pub enum NamedExprV {
    Num(int),
    Var(Seq<char>),
    Add(Box<NamedExprV>, Box<NamedExprV>),
    Sub(Box<NamedExprV>, Box<NamedExprV>),
    IsZero(Box<NamedExprV>),
    IfThenElse(Box<NamedExprV>, Box<NamedExprV>, Box<NamedExprV>),
    LetIn(Seq<char>, Box<NamedExprV>, Box<NamedExprV>),
    Fun(Seq<char>, Box<NamedExprV>),
    App(Box<NamedExprV>, Box<NamedExprV>),
}

/// Abstract syntax for named expressions.
#[derive(Debug, PartialEq)]
pub enum NamedExpr {
    Num(i32),
    Var(String),
    Add(Box<NamedExpr>, Box<NamedExpr>),
    Sub(Box<NamedExpr>, Box<NamedExpr>),
    IsZero(Box<NamedExpr>),
    IfThenElse(Box<NamedExpr>, Box<NamedExpr>, Box<NamedExpr>),
    LetIn(String, Box<NamedExpr>, Box<NamedExpr>),
    Fun(String, Box<NamedExpr>),
    App(Box<NamedExpr>, Box<NamedExpr>),
}

/// The model of a named expression tree.
pub open spec fn named_view(e: NamedExpr) -> NamedExprV
    decreases e,
{
    match e {
        NamedExpr::Num(n) => NamedExprV::Num(n as int),
        NamedExpr::Var(x) => NamedExprV::Var(x@),
        NamedExpr::Add(e1, e2) => NamedExprV::Add(
            Box::new(named_view(*e1)),
            Box::new(named_view(*e2)),
        ),
        NamedExpr::Sub(e1, e2) => NamedExprV::Sub(
            Box::new(named_view(*e1)),
            Box::new(named_view(*e2)),
        ),
        NamedExpr::IsZero(e1) => NamedExprV::IsZero(Box::new(named_view(*e1))),
        NamedExpr::IfThenElse(c, t, f) => NamedExprV::IfThenElse(
            Box::new(named_view(*c)),
            Box::new(named_view(*t)),
            Box::new(named_view(*f)),
        ),
        NamedExpr::LetIn(x, e1, e2) => NamedExprV::LetIn(
            x@,
            Box::new(named_view(*e1)),
            Box::new(named_view(*e2)),
        ),
        NamedExpr::Fun(x, body) => NamedExprV::Fun(x@, Box::new(named_view(*body))),
        NamedExpr::App(e1, e2) => NamedExprV::App(
            Box::new(named_view(*e1)),
            Box::new(named_view(*e2)),
        ),
    }
}

impl View for NamedExpr {
    type V = NamedExprV;

    open spec fn view(&self) -> NamedExprV {
        named_view(*self)
    }
}

impl Clone for NamedExpr {
    fn clone(&self) -> (r: Self)
        ensures
            r == *self,
        decreases self,
    {
        match self {
            NamedExpr::Num(n) => NamedExpr::Num(*n),
            NamedExpr::Var(x) => NamedExpr::Var(x.clone()),
            NamedExpr::Add(e1, e2) => NamedExpr::Add(
                Box::new((**e1).clone()),
                Box::new((**e2).clone()),
            ),
            NamedExpr::Sub(e1, e2) => NamedExpr::Sub(
                Box::new((**e1).clone()),
                Box::new((**e2).clone()),
            ),
            NamedExpr::IsZero(e1) => NamedExpr::IsZero(Box::new((**e1).clone())),
            NamedExpr::IfThenElse(c, t, f) => NamedExpr::IfThenElse(
                Box::new((**c).clone()),
                Box::new((**t).clone()),
                Box::new((**f).clone()),
            ),
            NamedExpr::LetIn(x, e1, e2) => NamedExpr::LetIn(
                x.clone(),
                Box::new((**e1).clone()),
                Box::new((**e2).clone()),
            ),
            NamedExpr::Fun(x, body) => NamedExpr::Fun(x.clone(), Box::new((**body).clone())),
            NamedExpr::App(e1, e2) => NamedExpr::App(
                Box::new((**e1).clone()),
                Box::new((**e2).clone()),
            ),
        }
    }
}

/// Number of nodes of a named expression; bounds the growth of the
/// resolver's scope stack.
pub open spec fn named_size(e: NamedExprV) -> nat
    decreases e,
{
    match e {
        NamedExprV::Num(_) => 1,
        NamedExprV::Var(_) => 1,
        NamedExprV::Add(e1, e2) => 1 + named_size(*e1) + named_size(*e2),
        NamedExprV::Sub(e1, e2) => 1 + named_size(*e1) + named_size(*e2),
        NamedExprV::IsZero(e1) => 1 + named_size(*e1),
        NamedExprV::IfThenElse(c, t, f) => 1 + named_size(*c) + named_size(*t) + named_size(*f),
        NamedExprV::LetIn(_, e1, e2) => 1 + named_size(*e1) + named_size(*e2),
        NamedExprV::Fun(_, body) => 1 + named_size(*body),
        NamedExprV::App(e1, e2) => 1 + named_size(*e1) + named_size(*e2),
    }
}

} // verus!
