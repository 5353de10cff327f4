//! The resolver's scope environment: an ordered list of names, most
//! recently bound first.

use vstd::prelude::*;
use crate::env::str_eq;

verus! {

/// Position of the first occurrence of `x` in `stack`, counted from the
/// front: the de Bruijn index of `x`, 0 for the innermost binder.
pub open spec fn stack_index(stack: Seq<Seq<char>>, x: Seq<char>) -> Option<int>
    decreases stack.len(),
{
    if stack.len() == 0 {
        None
    } else if stack[0] == x {
        Some(0int)
    } else {
        match stack_index(stack.drop_first(), x) {
            Some(i) => Some(i + 1),
            None => None,
        }
    }
}

/// `stack_index` returns the first occurrence of `x`, and fails exactly
/// when `x` is absent.
pub proof fn lemma_stack_index_first(stack: Seq<Seq<char>>, x: Seq<char>)
    ensures
        match stack_index(stack, x) {
            Some(i) => 0 <= i < stack.len() && stack[i] == x && (forall|k: int|
                0 <= k < i ==> stack[k] != x),
            None => forall|k: int| 0 <= k < stack.len() ==> stack[k] != x,
        },
    decreases stack.len(),
{
    if stack.len() != 0 && stack[0] != x {
        lemma_stack_index_first(stack.drop_first(), x);
        assert(forall|k: int| 1 <= k < stack.len() ==> stack[k] == stack.drop_first()[k - 1]);
    }
}

/// An ordered position list: `insert` pushes to the front, `index_of`
/// returns the 0-based distance from the front.
#[derive(Debug)]
pub struct NamelessEnv {
    env: Vec<String>,
}

impl View for NamelessEnv {
    type V = Seq<Seq<char>>;

    closed spec fn view(&self) -> Seq<Seq<char>> {
        self.env@.map_values(|s: String| s@)
    }
}

impl Clone for NamelessEnv {
    fn clone(&self) -> (r: Self)
        ensures
            r@ == self@,
    {
        let mut names: Vec<String> = Vec::new();
        let mut i: usize = 0;
        while i < self.env.len()
            invariant
                i <= self.env@.len(),
                names@.len() == i,
                forall|k: int| 0 <= k < i ==> names@[k] == self.env@[k],
            decreases self.env@.len() - i,
        {
            names.push(self.env[i].clone());
            i = i + 1;
        }
        proof {
            assert(names@ =~= self.env@);
        }
        NamelessEnv { env: names }
    }
}

impl NamelessEnv {
    /// Creates an empty environment.
    pub fn new() -> (r: Self)
        ensures
            r@ == Seq::<Seq<char>>::empty(),
    {
        let r = NamelessEnv { env: Vec::new() };
        proof {
            assert(r@ =~= Seq::<Seq<char>>::empty());
        }
        r
    }

    /// Pushes a name to the front of the list.
    pub fn insert(&mut self, value: String)
        ensures
            final(self)@ == seq![value@] + old(self)@,
    {
        self.env.insert(0, value);
        proof {
            assert(self@ =~= seq![value@] + old(self)@);
        }
    }

    /// Finds the de Bruijn index of a name: the 0-based distance of its
    /// first occurrence from the front of the list.
    pub fn index_of(&self, value: &str) -> (r: i32)
        requires
            stack_index(self@, value@) is Some,
            self@.len() <= 0x7fff_ffff,
        ensures
            0 <= r,
            stack_index(self@, value@) == Some(r as int),
    {
        let mut i: usize = 0;
        while i < self.env.len()
            invariant
                i <= self.env@.len(),
                self@.len() == self.env@.len(),
                self@.len() <= 0x7fff_ffff,
                stack_index(self@, value@) is Some,
                forall|k: int| 0 <= k < i ==> self@[k] != value@,
            decreases self.env@.len() - i,
        {
            if str_eq(self.env[i].as_str(), value) {
                proof {
                    lemma_stack_index_first(self@, value@);
                    assert(self@[i as int] == value@);
                }
                return i as i32;
            }
            i = i + 1;
        }
        proof {
            lemma_stack_index_first(self@, value@);
            assert(false);
        }
        unreached()
    }
}

} // verus!
