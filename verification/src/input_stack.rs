//! A stack of input consumers: the most recently pushed item is on top and
//! receives input; an item anywhere in the stack can be removed when its
//! consumer goes away.

use vstd::prelude::*;

use vstd::std_specs::cmp::PartialEqSpec;

verus! {

/// Whether some element of `s` compares equal to `item`.
pub open spec fn spec_stack_contains<T: PartialEq>(s: Seq<T>, item: T) -> bool {
    exists|i: int| 0 <= i < s.len() && (#[trigger] s[i]).eq_spec(&item)
}

/// The first index of `s` whose element compares equal to `item`.
pub open spec fn spec_first_match<T: PartialEq>(s: Seq<T>, item: T) -> int
    decreases s.len(),
{
    if s.len() == 0 {
        0
    } else if s[0].eq_spec(&item) {
        0
    } else {
        1 + spec_first_match(s.skip(1), item)
    }
}

#[derive(Debug)]
pub struct InputStack<T> {
    items: Vec<T>,
}

impl<T: PartialEq> View for InputStack<T> {
    type V = Seq<T>;

    closed spec fn view(&self) -> Seq<T> {
        self.items@
    }
}

impl<T: PartialEq> InputStack<T> {
    pub fn new() -> (r: InputStack<T>)
        ensures
            r@ == Seq::<T>::empty(),
    {
        InputStack { items: Vec::new() }
    }

    pub fn push(&mut self, item: T)
        ensures
            final(self)@ == old(self)@.push(item),
    {
        self.items.push(item);
    }

    /// Removes the first item of the stack that compares equal to `item`, if
    /// any; anything else stays in place.
    #[verifier::loop_isolation(false)]
    pub fn remove(&mut self, item: &T)
        requires
            T::obeys_eq_spec(),
        ensures
            if spec_stack_contains(old(self)@, *item) {
                final(self)@ == old(self)@.remove(spec_first_match(old(self)@, *item))
            } else {
                final(self)@ == old(self)@
            },
    {
        proof {
            assert(self@.skip(0) =~= self@);
        }
        let mut j: usize = 0;
        let n = self.items.len();
        while j < n
            invariant
                self@ == old(self)@,
                T::obeys_eq_spec(),
                n == self@.len(),
                j <= n,
                forall|k: int| 0 <= k < j ==> !(#[trigger] self@[k]).eq_spec(item),
                spec_first_match(self@, *item) == j + spec_first_match(self@.skip(j as int), *item),
            decreases n - j,
        {
            proof {
                let tail = self@.skip(j as int);
                assert(tail[0] == self@[j as int]);
                assert(tail.skip(1) =~= self@.skip(j as int + 1));
            }
            if self.items[j].eq(item) {
                proof {
                    assert(self@[j as int].eq_spec(item));
                    assert(spec_first_match(self@, *item) == j);
                    assert(spec_stack_contains(self@, *item));
                }
                self.items.remove(j);
                return ;
            }
            j += 1;
        }
        proof {
            assert forall|i: int| 0 <= i < self@.len() implies !(#[trigger] self@[i]).eq_spec(
                item,
            ) by {}
            assert(!spec_stack_contains(self@, *item));
        }
    }

    /// The top of the stack: the most recently pushed item still present.
    pub fn top(&self) -> (r: Option<&T>)
        ensures
            match r {
                Some(item) => self@.len() > 0 && *item == self@.last(),
                None => self@.len() == 0,
            },
    {
        self.items.last()
    }
}

} // verus!
