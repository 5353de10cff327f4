//! The lexical-scope resolver: rewrites variable references from names to
//! positional de Bruijn indices.

use vstd::prelude::*;
use crate::named::{NamedExpr, NamedExprV, named_size};
use crate::nameless_env::{NamelessEnv, stack_index};

verus! {

/// Mathematical model of a nameless expression: variables are de Bruijn
/// indices, binders carry no name.
pub enum NamelessExprV {
    Num(int),
    Var(int),
    Add(Box<NamelessExprV>, Box<NamelessExprV>),
    Sub(Box<NamelessExprV>, Box<NamelessExprV>),
    IsZero(Box<NamelessExprV>),
    IfThenElse(Box<NamelessExprV>, Box<NamelessExprV>, Box<NamelessExprV>),
    LetIn(Box<NamelessExprV>, Box<NamelessExprV>),
    Fun(Box<NamelessExprV>),
    App(Box<NamelessExprV>, Box<NamelessExprV>),
}

/// Abstract syntax for nameless expressions.
#[derive(Debug, PartialEq)]
pub enum NamelessExpr {
    Num(i32),
    Var(i32),
    Add(Box<NamelessExpr>, Box<NamelessExpr>),
    Sub(Box<NamelessExpr>, Box<NamelessExpr>),
    IsZero(Box<NamelessExpr>),
    IfThenElse(Box<NamelessExpr>, Box<NamelessExpr>, Box<NamelessExpr>),
    LetIn(Box<NamelessExpr>, Box<NamelessExpr>),
    Fun(Box<NamelessExpr>),
    App(Box<NamelessExpr>, Box<NamelessExpr>),
}

/// The model of a nameless expression tree.
pub open spec fn nameless_view(e: NamelessExpr) -> NamelessExprV
    decreases e,
{
    match e {
        NamelessExpr::Num(n) => NamelessExprV::Num(n as int),
        NamelessExpr::Var(i) => NamelessExprV::Var(i as int),
        NamelessExpr::Add(e1, e2) => NamelessExprV::Add(
            Box::new(nameless_view(*e1)),
            Box::new(nameless_view(*e2)),
        ),
        NamelessExpr::Sub(e1, e2) => NamelessExprV::Sub(
            Box::new(nameless_view(*e1)),
            Box::new(nameless_view(*e2)),
        ),
        NamelessExpr::IsZero(e1) => NamelessExprV::IsZero(Box::new(nameless_view(*e1))),
        NamelessExpr::IfThenElse(c, t, f) => NamelessExprV::IfThenElse(
            Box::new(nameless_view(*c)),
            Box::new(nameless_view(*t)),
            Box::new(nameless_view(*f)),
        ),
        NamelessExpr::LetIn(e1, e2) => NamelessExprV::LetIn(
            Box::new(nameless_view(*e1)),
            Box::new(nameless_view(*e2)),
        ),
        NamelessExpr::Fun(body) => NamelessExprV::Fun(Box::new(nameless_view(*body))),
        NamelessExpr::App(e1, e2) => NamelessExprV::App(
            Box::new(nameless_view(*e1)),
            Box::new(nameless_view(*e2)),
        ),
    }
}

impl View for NamelessExpr {
    type V = NamelessExprV;

    open spec fn view(&self) -> NamelessExprV {
        nameless_view(*self)
    }
}

impl Clone for NamelessExpr {
    fn clone(&self) -> (r: Self)
        ensures
            r == *self,
        decreases self,
    {
        match self {
            NamelessExpr::Num(n) => NamelessExpr::Num(*n),
            NamelessExpr::Var(i) => NamelessExpr::Var(*i),
            NamelessExpr::Add(e1, e2) => NamelessExpr::Add(
                Box::new((**e1).clone()),
                Box::new((**e2).clone()),
            ),
            NamelessExpr::Sub(e1, e2) => NamelessExpr::Sub(
                Box::new((**e1).clone()),
                Box::new((**e2).clone()),
            ),
            NamelessExpr::IsZero(e1) => NamelessExpr::IsZero(Box::new((**e1).clone())),
            NamelessExpr::IfThenElse(c, t, f) => NamelessExpr::IfThenElse(
                Box::new((**c).clone()),
                Box::new((**t).clone()),
                Box::new((**f).clone()),
            ),
            NamelessExpr::LetIn(e1, e2) => NamelessExpr::LetIn(
                Box::new((**e1).clone()),
                Box::new((**e2).clone()),
            ),
            NamelessExpr::Fun(body) => NamelessExpr::Fun(Box::new((**body).clone())),
            NamelessExpr::App(e1, e2) => NamelessExpr::App(
                Box::new((**e1).clone()),
                Box::new((**e2).clone()),
            ),
        }
    }
}

/// The resolution semantics. `stack` holds the names in scope, innermost
/// binder first. `None` exactly when a reachable variable has no
/// enclosing binder. Binders extend the stack only for the subtree they
/// govern; the bound expression of a `let` sees the unextended stack.
pub open spec fn resolve(stack: Seq<Seq<char>>, e: NamedExprV) -> Option<NamelessExprV>
    decreases e,
{
    match e {
        NamedExprV::Num(n) => Some(NamelessExprV::Num(n)),
        NamedExprV::Var(x) => match stack_index(stack, x) {
            Some(i) => Some(NamelessExprV::Var(i)),
            None => None,
        },
        NamedExprV::Add(e1, e2) => match (resolve(stack, *e1), resolve(stack, *e2)) {
            (Some(r1), Some(r2)) => Some(NamelessExprV::Add(Box::new(r1), Box::new(r2))),
            _ => None,
        },
        NamedExprV::Sub(e1, e2) => match (resolve(stack, *e1), resolve(stack, *e2)) {
            (Some(r1), Some(r2)) => Some(NamelessExprV::Sub(Box::new(r1), Box::new(r2))),
            _ => None,
        },
        NamedExprV::IsZero(e1) => match resolve(stack, *e1) {
            Some(r1) => Some(NamelessExprV::IsZero(Box::new(r1))),
            None => None,
        },
        NamedExprV::IfThenElse(c, t, f) => match (
            resolve(stack, *c),
            resolve(stack, *t),
            resolve(stack, *f),
        ) {
            (Some(rc), Some(rt), Some(rf)) => Some(
                NamelessExprV::IfThenElse(Box::new(rc), Box::new(rt), Box::new(rf)),
            ),
            _ => None,
        },
        NamedExprV::LetIn(x, e1, e2) => match (
            resolve(stack, *e1),
            resolve(seq![x] + stack, *e2),
        ) {
            (Some(r1), Some(r2)) => Some(NamelessExprV::LetIn(Box::new(r1), Box::new(r2))),
            _ => None,
        },
        NamedExprV::Fun(x, body) => match resolve(seq![x] + stack, *body) {
            Some(rb) => Some(NamelessExprV::Fun(Box::new(rb))),
            None => None,
        },
        NamedExprV::App(e1, e2) => match (resolve(stack, *e1), resolve(stack, *e2)) {
            (Some(r1), Some(r2)) => Some(NamelessExprV::App(Box::new(r1), Box::new(r2))),
            _ => None,
        },
    }
}

/// Structural well-scopedness: every variable occurrence has an enclosing
/// binder of that name (or one on the initial stack).
pub open spec fn well_scoped(stack: Seq<Seq<char>>, e: NamedExprV) -> bool
    decreases e,
{
    match e {
        NamedExprV::Num(_) => true,
        NamedExprV::Var(x) => stack_index(stack, x) is Some,
        NamedExprV::Add(e1, e2) => well_scoped(stack, *e1) && well_scoped(stack, *e2),
        NamedExprV::Sub(e1, e2) => well_scoped(stack, *e1) && well_scoped(stack, *e2),
        NamedExprV::IsZero(e1) => well_scoped(stack, *e1),
        NamedExprV::IfThenElse(c, t, f) => well_scoped(stack, *c) && well_scoped(stack, *t)
            && well_scoped(stack, *f),
        NamedExprV::LetIn(x, e1, e2) => well_scoped(stack, *e1) && well_scoped(
            seq![x] + stack,
            *e2,
        ),
        NamedExprV::Fun(x, body) => well_scoped(seq![x] + stack, *body),
        NamedExprV::App(e1, e2) => well_scoped(stack, *e1) && well_scoped(stack, *e2),
    }
}

/// Resolution succeeds exactly on well-scoped expressions: an unbound
/// variable always surfaces as a failure, never as a wrong index.
pub proof fn lemma_resolve_succeeds_iff_well_scoped(stack: Seq<Seq<char>>, e: NamedExprV)
    ensures
        (resolve(stack, e) is Some) <==> well_scoped(stack, e),
    decreases e,
{
    match e {
        NamedExprV::Num(_) => {},
        NamedExprV::Var(_) => {},
        NamedExprV::Add(e1, e2) => {
            lemma_resolve_succeeds_iff_well_scoped(stack, *e1);
            lemma_resolve_succeeds_iff_well_scoped(stack, *e2);
        },
        NamedExprV::Sub(e1, e2) => {
            lemma_resolve_succeeds_iff_well_scoped(stack, *e1);
            lemma_resolve_succeeds_iff_well_scoped(stack, *e2);
        },
        NamedExprV::IsZero(e1) => {
            lemma_resolve_succeeds_iff_well_scoped(stack, *e1);
        },
        NamedExprV::IfThenElse(c, t, f) => {
            lemma_resolve_succeeds_iff_well_scoped(stack, *c);
            lemma_resolve_succeeds_iff_well_scoped(stack, *t);
            lemma_resolve_succeeds_iff_well_scoped(stack, *f);
        },
        NamedExprV::LetIn(x, e1, e2) => {
            lemma_resolve_succeeds_iff_well_scoped(stack, *e1);
            lemma_resolve_succeeds_iff_well_scoped(seq![x] + stack, *e2);
        },
        NamedExprV::Fun(x, body) => {
            lemma_resolve_succeeds_iff_well_scoped(seq![x] + stack, *body);
        },
        NamedExprV::App(e1, e2) => {
            lemma_resolve_succeeds_iff_well_scoped(stack, *e1);
            lemma_resolve_succeeds_iff_well_scoped(stack, *e2);
        },
    }
}

/// A name just pushed onto the scope stack resolves to index 0; every
/// other name's index grows by exactly one.
pub proof fn lemma_stack_index_push(stack: Seq<Seq<char>>, x: Seq<char>, y: Seq<char>)
    ensures
        stack_index(seq![x] + stack, x) == Some(0int),
        x != y ==> stack_index(seq![x] + stack, y) == match stack_index(stack, y) {
            Some(i) => Some(i + 1),
            None => None::<int>,
        },
{
    assert((seq![x] + stack)[0] == x);
    assert((seq![x] + stack).drop_first() =~= stack);
}

/// Resolution is a function of the tree alone: structurally identical
/// expressions, resolved under the same scope stack, receive identical
/// index assignments.
pub proof fn lemma_resolve_deterministic(
    stack: Seq<Seq<char>>,
    e1: NamedExprV,
    e2: NamedExprV,
)
    requires
        e1 == e2,
    ensures
        resolve(stack, e1) == resolve(stack, e2),
{
}

/// Converts a named expression under a given scope stack; every resolved
/// index is the distance to the nearest enclosing binder of that name.
pub fn to_nameless_inner(expr: &NamedExpr, env: &mut NamelessEnv) -> (r: NamelessExpr)
    requires
        resolve(old(env)@, expr@) is Some,
        old(env)@.len() + named_size(expr@) <= 0x7fff_ffff,
    ensures
        final(env)@ == old(env)@,
        Some(r@) == resolve(old(env)@, expr@),
    decreases expr,
{
    match expr {
        NamedExpr::Num(n) => NamelessExpr::Num(*n),
        NamedExpr::Var(name) => NamelessExpr::Var(env.index_of(name.as_str())),
        NamedExpr::Add(e1, e2) => {
            let r1 = to_nameless_inner(e1, env);
            let r2 = to_nameless_inner(e2, env);
            NamelessExpr::Add(Box::new(r1), Box::new(r2))
        },
        NamedExpr::Sub(e1, e2) => {
            let r1 = to_nameless_inner(e1, env);
            let r2 = to_nameless_inner(e2, env);
            NamelessExpr::Sub(Box::new(r1), Box::new(r2))
        },
        NamedExpr::IsZero(e1) => {
            let r1 = to_nameless_inner(e1, env);
            NamelessExpr::IsZero(Box::new(r1))
        },
        NamedExpr::IfThenElse(c, t, f) => {
            let rc = to_nameless_inner(c, env);
            let rt = to_nameless_inner(t, env);
            let rf = to_nameless_inner(f, env);
            NamelessExpr::IfThenElse(Box::new(rc), Box::new(rt), Box::new(rf))
        },
        NamedExpr::LetIn(x, e1, e2) => {
            let r1 = to_nameless_inner(e1, env);
            let mut inner = env.clone();
            inner.insert(x.clone());
            let r2 = to_nameless_inner(e2, &mut inner);
            NamelessExpr::LetIn(Box::new(r1), Box::new(r2))
        },
        NamedExpr::Fun(x, body) => {
            let mut inner = env.clone();
            inner.insert(x.clone());
            let rb = to_nameless_inner(body, &mut inner);
            NamelessExpr::Fun(Box::new(rb))
        },
        NamedExpr::App(e1, e2) => {
            let r1 = to_nameless_inner(e1, env);
            let r2 = to_nameless_inner(e2, env);
            NamelessExpr::App(Box::new(r1), Box::new(r2))
        },
    }
}

/// Converts a closed named expression to its nameless form, starting from
/// an empty scope stack.
pub fn to_nameless(expr: &NamedExpr) -> (r: NamelessExpr)
    requires
        resolve(Seq::empty(), expr@) is Some,
        named_size(expr@) <= 0x7fff_ffff,
    ensures
        Some(r@) == resolve(Seq::empty(), expr@),
{
    let mut env = NamelessEnv::new();
    to_nameless_inner(expr, &mut env)
}

} // verus!
