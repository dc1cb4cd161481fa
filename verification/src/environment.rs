//! The single flat namespace of variable bindings: a mapping from name to
//! current value, mutated in place by variable declarations and read by
//! variable expressions. The last definition of a name wins.

use vstd::prelude::*;

use crate::literal_type::Lit;
use crate::literal_type::LitV;

verus! {

pub struct Environment {
    values: Vec<(String, Lit)>,
}

/// The mapping an association list stands for: each entry inserts its
/// binding over the earlier ones, so a later definition wins.
pub open spec fn env_map(vals: Seq<(String, Lit)>) -> Map<Seq<char>, LitV>
    decreases vals.len(),
{
    if vals.len() == 0 {
        Map::empty()
    } else {
        env_map(vals.drop_last()).insert(vals.last().0@, vals.last().1@)
    }
}

impl View for Environment {
    type V = Map<Seq<char>, LitV>;

    closed spec fn view(&self) -> Map<Seq<char>, LitV> {
        env_map(self.values@)
    }
}

/// Dropping a binding whose name is not `k` leaves what the list says of `k`
/// unchanged.
proof fn lemma_env_map_prefix(vals: Seq<(String, Lit)>, i: int, k: Seq<char>)
    requires
        0 <= i < vals.len(),
        vals[i].0@ != k,
    ensures
        env_map(vals.take(i + 1)).contains_key(k) == env_map(vals.take(i)).contains_key(k),
        env_map(vals.take(i + 1)).contains_key(k) ==> env_map(vals.take(i + 1))[k] == env_map(
            vals.take(i),
        )[k],
{
    let longer = vals.take(i + 1);
    assert(longer.drop_last() =~= vals.take(i));
    assert(longer.last() == vals[i]);
}

impl Environment {
    /// An environment that contains no entry before its first `define`.
    pub fn new() -> (r: Self)
        ensures
            r@ == Map::<Seq<char>, LitV>::empty(),
    {
        Self { values: Vec::new() }
    }

    /// Unconditional insert-or-overwrite: after the call the name is bound
    /// to the given value, and every other name is bound as before.
    pub fn define(&mut self, name: &str, value: Lit)
        ensures
            final(self)@ == old(self)@.insert(name@, value@),
    {
        let owned: String = name.to_owned();
        let ghost before = self.values@;
        self.values.push((owned, value));
        proof {
            assert(self.values@.drop_last() =~= before);
        }
    }

    /// The value the name is bound to, or None where the name was never
    /// defined.
    pub fn get(&self, name: &str) -> (r: Option<Lit>)
        ensures
            match r {
                Option::Some(v) => self@.contains_key(name@) && v@ == self@[name@],
                Option::None => !self@.contains_key(name@),
            },
    {
        let owned: String = name.to_owned();
        let mut i: usize = self.values.len();
        proof {
            assert(self.values@.take(i as int) =~= self.values@);
        }
        loop
            invariant
                i <= self.values@.len(),
                owned@ == name@,
                self@.contains_key(name@) == env_map(self.values@.take(i as int)).contains_key(
                    name@,
                ),
                self@.contains_key(name@) ==> self@[name@] == env_map(
                    self.values@.take(i as int),
                )[name@],
            decreases i,
        {
            if i == 0 {
                proof {
                    assert(self.values@.take(0) =~= Seq::<(String, Lit)>::empty());
                }
                return Option::None;
            }
            i = i - 1;
            if self.values[i].0 == owned {
                proof {
                    assert(self.values@.take(i + 1).drop_last() =~= self.values@.take(i as int));
                    assert(self.values@.take(i + 1).last() == self.values@[i as int]);
                }
                return Option::Some(self.values[i].1.clone_lit());
            }
            proof {
                lemma_env_map_prefix(self.values@, i as int, name@);
            }
        }
    }
}

} // verus!
