//! The operand stack: an ordered sequence of field elements, front = top.

use vstd::prelude::*;
use crate::field::Felt;

verus! {

/// The operand stack. Its view is the sequence of held elements with the
/// top of the stack at index 0.
pub struct Stack {
    elems: Vec<Felt>,
}

impl View for Stack {
    type V = Seq<Felt>;

    closed spec fn view(&self) -> Seq<Felt> {
        self.elems@
    }
}

impl Stack {
    /// An empty stack.
    pub fn new() -> (r: Stack)
        ensures
            r@ == Seq::<Felt>::empty(),
    {
        Stack { elems: Vec::new() }
    }

    /// How many elements the stack holds.
    pub fn len(&self) -> (r: usize)
        ensures
            r == self@.len(),
    {
        self.elems.len()
    }

    /// Pushes an element on top of the stack.
    pub fn push_front(&mut self, v: Felt)
        ensures
            final(self)@ == seq![v] + old(self)@,
    {
        self.elems.insert(0, v);
        proof {
            assert(self@ =~= seq![v] + old(self)@);
        }
    }

    /// Pops the top element, or returns `None` and leaves the stack
    /// unchanged when it is empty.
    pub fn pop_front(&mut self) -> (r: Option<Felt>)
        ensures
            old(self)@.len() == 0 ==> r is None && final(self)@ == old(self)@,
            old(self)@.len() > 0 ==> r == Some(old(self)@[0]) && final(self)@ == old(self)@.skip(
                1,
            ),
    {
        if self.elems.len() == 0 {
            None
        } else {
            let v = self.elems.remove(0);
            proof {
                assert(self@ =~= old(self)@.skip(1));
            }
            Some(v)
        }
    }

    /// Reads the element at depth `i` without removing it, or returns `None`
    /// when the stack is shallower.
    pub fn get(&self, i: usize) -> (r: Option<Felt>)
        ensures
            i < self@.len() ==> r == Some(self@[i as int]),
            i >= self@.len() ==> r is None,
    {
        if i < self.elems.len() {
            Some(self.elems[i])
        } else {
            None
        }
    }

    /// Exchanges the elements at depths `i` and `j` in place.
    pub fn swap(&mut self, i: usize, j: usize)
        requires
            i < old(self)@.len(),
            j < old(self)@.len(),
        ensures
            final(self)@ == old(self)@.update(i as int, old(self)@[j as int]).update(
                j as int,
                old(self)@[i as int],
            ),
    {
        let a = self.elems[i];
        let b = self.elems[j];
        self.elems.set(i, b);
        self.elems.set(j, a);
    }

    /// Removes every element.
    pub fn clear(&mut self)
        ensures
            final(self)@ == Seq::<Felt>::empty(),
    {
        self.elems.clear();
    }
}

} // verus!
