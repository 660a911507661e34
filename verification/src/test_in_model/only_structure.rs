//! A struct of two counters whose constructor fills the second from the
//! first.
use vstd::prelude::*;

verus! {

/// Two counters.
pub struct MyStruct {
    value: usize,
    value_2: usize,
}

impl View for MyStruct {
    type V = (usize, usize);

    closed spec fn view(&self) -> (usize, usize) {
        (self.value, self.value_2)
    }
}

impl MyStruct {
    /// A struct of the two counters given.
    fn builder(value: usize, value_2: usize) -> (r: Self)
        ensures
            r@ == (value, value_2),
    {
        MyStruct { value, value_2 }
    }

    /// A struct whose second counter is twice the first.
    pub fn new(value: usize) -> (r: Self)
        requires
            value * 2 <= usize::MAX,
        ensures
            r@ == (value, (value * 2) as usize),
    {
        MyStruct::builder(value, value * 2)
    }

    /// Adds `value` to the first counter.
    fn sum(&mut self, value: usize)
        requires
            old(self)@.0 + value <= usize::MAX,
        ensures
            final(self)@ == ((old(self)@.0 + value) as usize, old(self)@.1),
    {
        self.value += value;
    }
}

} // verus!
