//! Environments: the name-to-value map of the evaluator and the
//! name-to-type map of the type checker.

use vstd::prelude::*;
use vstd::string::StrSliceExecFns;
use crate::eval::{Value, ValueV, value_view};
use crate::typing::Type;

verus! {

/// Character-by-character string comparison, equal exactly when the two
/// views are the same sequence of characters.
pub(crate) fn str_eq(a: &str, b: &str) -> (r: bool)
    ensures
        r == (a@ == b@),
{
    let alen = a.unicode_len();
    let blen = b.unicode_len();
    if alen != blen {
        return false;
    }
    let mut i: usize = 0;
    while i < alen
        invariant
            alen == a@.len(),
            alen == b@.len(),
            i <= alen,
            forall|k: int| 0 <= k < i ==> a@[k] == b@[k],
        decreases alen - i,
    {
        if a.get_char(i) != b.get_char(i) {
            return false;
        }
        i = i + 1;
    }
    proof {
        assert(a@ =~= b@);
    }
    true
}

/// A list of name/value bindings; the front-most entry for a name is the
/// live one.
#[derive(Debug, PartialEq)]
pub enum Bindings {
    Nil,
    Cons(String, Value, Box<Bindings>),
}

/// The map held by a list of bindings.
pub open spec fn bindings_map(b: Bindings) -> Map<Seq<char>, ValueV>
    decreases b,
{
    match b {
        Bindings::Nil => Map::empty(),
        Bindings::Cons(x, v, rest) => bindings_map(*rest).insert(x@, value_view(v)),
    }
}

/// The map held by an environment.
pub closed spec fn env_map(e: Env) -> Map<Seq<char>, ValueV>
    decreases e,
{
    bindings_map(e.head)
}

impl Clone for Bindings {
    fn clone(&self) -> (r: Self)
        ensures
            r == *self,
        decreases self,
    {
        match self {
            Bindings::Nil => Bindings::Nil,
            Bindings::Cons(x, v, rest) => Bindings::Cons(
                x.clone(),
                v.clone(),
                Box::new((**rest).clone()),
            ),
        }
    }
}

/// Reference to the value bound front-most to `var`.
fn bindings_lookup<'a>(b: &'a Bindings, var: &str) -> (v: &'a Value)
    requires
        bindings_map(*b).dom().contains(var@),
    ensures
        value_view(*v) == bindings_map(*b)[var@],
    decreases b,
{
    match b {
        Bindings::Nil => {
            unreached()
        },
        Bindings::Cons(x, val, rest) => {
            if str_eq(x.as_str(), var) {
                val
            } else {
                bindings_lookup(rest, var)
            }
        },
    }
}

/// Drops every binding of `var` from the list.
fn bindings_remove(b: Bindings, var: &str) -> (r: Bindings)
    ensures
        bindings_map(r) == bindings_map(b).remove(var@),
    decreases b,
{
    let ghost b0 = b;
    match b {
        Bindings::Nil => {
            proof {
                assert(bindings_map(b0) =~= bindings_map(b0).remove(var@));
            }
            Bindings::Nil
        },
        Bindings::Cons(x, val, rest) => {
            if str_eq(x.as_str(), var) {
                let r = bindings_remove(*rest, var);
                proof {
                    assert(bindings_map(r) =~= bindings_map(b0).remove(var@));
                }
                r
            } else {
                let r = Bindings::Cons(x, val, Box::new(bindings_remove(*rest, var)));
                proof {
                    assert(bindings_map(r) =~= bindings_map(b0).remove(var@));
                }
                r
            }
        },
    }
}

/// The evaluator's name-to-value environment: `insert` overwrites,
/// `remove` deletes the binding (it does not restore a shadowed one).
#[derive(Debug, PartialEq)]
pub struct Env {
    head: Bindings,
}

impl View for Env {
    type V = Map<Seq<char>, ValueV>;

    open spec fn view(&self) -> Map<Seq<char>, ValueV> {
        env_map(*self)
    }
}

impl Clone for Env {
    fn clone(&self) -> (r: Self)
        ensures
            r == *self,
        decreases self,
    {
        Env { head: self.head.clone() }
    }
}

impl Env {
    /// Creates an empty environment.
    pub fn new() -> (r: Self)
        ensures
            r@ == Map::<Seq<char>, ValueV>::empty(),
    {
        Env { head: Bindings::Nil }
    }

    /// Looks a variable up; the caller must know the variable is bound.
    pub fn lookup(&self, var: &str) -> (v: Value)
        requires
            self@.dom().contains(var@),
        ensures
            value_view(v) == self@[var@],
    {
        bindings_lookup(&self.head, var).clone()
    }

    /// Binds a variable to a value, overwriting any earlier binding.
    pub fn insert(&mut self, var: String, value: Value)
        ensures
            final(self)@ == old(self)@.insert(var@, value_view(value)),
    {
        let mut head = Bindings::Nil;
        core::mem::swap(&mut head, &mut self.head);
        self.head = Bindings::Cons(var, value, Box::new(head));
    }

    /// Deletes the binding of a variable. A binding this one shadowed is
    /// not restored: the variable is unbound afterwards.
    pub fn remove(&mut self, var: &str)
        ensures
            final(self)@ == old(self)@.remove(var@),
    {
        let mut head = Bindings::Nil;
        core::mem::swap(&mut head, &mut self.head);
        self.head = bindings_remove(head, var);
    }
}

/// The map held by a sequence of name/type entries; a later entry for the
/// same name overwrites an earlier one.
pub open spec fn type_env_map(entries: Seq<(String, Type)>) -> Map<Seq<char>, Type>
    decreases entries.len(),
{
    if entries.len() == 0 {
        Map::empty()
    } else {
        type_env_map(entries.drop_last()).insert(entries.last().0@, entries.last().1)
    }
}

/// Entries whose name does not occur from position `i` on do not change
/// what the map holds for that name.
proof fn lemma_type_env_map_skip_suffix(entries: Seq<(String, Type)>, i: int, x: Seq<char>)
    requires
        0 <= i <= entries.len(),
        forall|k: int| i <= k < entries.len() ==> entries[k].0@ != x,
    ensures
        type_env_map(entries).dom().contains(x) == type_env_map(entries.take(i)).dom().contains(
            x,
        ),
        type_env_map(entries).dom().contains(x) ==> type_env_map(entries)[x] == type_env_map(
            entries.take(i),
        )[x],
    decreases entries.len() - i,
{
    if i < entries.len() {
        lemma_type_env_map_skip_suffix(entries.drop_last(), i, x);
        assert(entries.drop_last().take(i) =~= entries.take(i));
    } else {
        assert(entries.take(i) =~= entries);
    }
}

/// The name-to-type map of the type checker: `insert` overwrites, and a
/// binding persists for the remainder of the call (no removal).
#[derive(Debug)]
pub struct TypeEnv {
    entries: Vec<(String, Type)>,
}

impl View for TypeEnv {
    type V = Map<Seq<char>, Type>;

    closed spec fn view(&self) -> Map<Seq<char>, Type> {
        type_env_map(self.entries@)
    }
}

impl TypeEnv {
    /// Creates an empty type environment.
    pub fn new() -> (r: Self)
        ensures
            r@ == Map::<Seq<char>, Type>::empty(),
    {
        TypeEnv { entries: Vec::new() }
    }

    /// Binds a name to a type, overwriting any earlier binding.
    pub fn insert(&mut self, var: String, t: Type)
        ensures
            final(self)@ == old(self)@.insert(var@, t),
    {
        let ghost prior = self.entries@;
        self.entries.push((var, t));
        proof {
            assert(self.entries@.drop_last() =~= prior);
        }
    }

    /// Looks a name up; the caller must know the name is bound.
    pub fn lookup(&self, var: &str) -> (t: Type)
        requires
            self@.dom().contains(var@),
        ensures
            t == self@[var@],
    {
        let mut i: usize = self.entries.len();
        while i > 0
            invariant
                i <= self.entries@.len(),
                self@.dom().contains(var@),
                self@ == type_env_map(self.entries@),
                forall|k: int| i <= k < self.entries@.len() ==> self.entries@[k].0@ != var@,
            decreases i,
        {
            i = i - 1;
            if str_eq(self.entries[i].0.as_str(), var) {
                proof {
                    lemma_type_env_map_skip_suffix(self.entries@, i + 1, var@);
                    assert(self.entries@.take(i as int + 1).drop_last() =~= self.entries@.take(
                        i as int,
                    ));
                    assert(self.entries@.take(i as int + 1).last() == self.entries@[i as int]);
                }
                return self.entries[i].1.clone();
            }
        }
        proof {
            lemma_type_env_map_skip_suffix(self.entries@, 0, var@);
            assert(self.entries@.take(0) =~= Seq::<(String, Type)>::empty());
            assert(false);
        }
        unreached()
    }
}

} // verus!
