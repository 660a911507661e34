//! A counter with methods of every receiver and return shape that the
//! attribute handles on an `impl` block.
use vstd::prelude::*;

verus! {

/// A counter.
pub struct Number {
    pub number: usize,
}

impl Number {
    /// A counter that holds `number`.
    fn new(number: usize) -> (r: Self)
        ensures
            r.number == number,
    {
        Number { number }
    }

    /// Adds `value` to the counter.
    pub fn insert(&mut self, value: usize)
        requires
            old(self).number + value <= usize::MAX,
        ensures
            final(self).number == old(self).number + value,
    {
        self.number += value;
    }

    /// Multiplies the counter by the other one, then the other one by the
    /// product, and gives this counter back.
    pub fn multiply(&mut self, other: &mut Self) -> (r: &mut Self)
        requires
            old(self).number * old(other).number <= usize::MAX,
            old(other).number * (old(self).number * old(other).number) <= usize::MAX,
        ensures
            r.number == old(self).number * old(other).number,
            final(other).number == old(other).number * (old(self).number * old(other).number),
            *final(self) == *final(r),
    {
        self.number *= other.number;
        other.number *= self.number;
        self
    }

    /// A counter that holds the sum of the two counters.
    fn full_method(&mut self, other: &mut Self) -> (r: Self)
        requires
            old(self).number + old(other).number <= usize::MAX,
        ensures
            r.number == old(self).number + old(other).number,
            *final(self) == *old(self),
            *final(other) == *old(other),
    {
        let reply = Number::new(self.number + other.number);
        reply
    }

    /// A counter that holds the sum of the counter and `other`; `other` is
    /// then multiplied by the counter.
    pub fn full_method_mut_ref(&mut self, other: &mut usize) -> (r: Self)
        requires
            old(self).number + *old(other) <= usize::MAX,
            *old(other) * old(self).number <= usize::MAX,
        ensures
            r.number == old(self).number + *old(other),
            *final(other) == *old(other) * old(self).number,
            *final(self) == *old(self),
    {
        let reply = Number::new(self.number + *other);
        *other *= self.number;
        reply
    }

    /// The counter.
    pub fn ref_value(&self) -> (r: &usize)
        ensures
            *r == self.number,
    {
        &self.number
    }

    /// The counter, to be changed in place.
    pub fn mut_value(&mut self) -> (r: &mut usize)
        ensures
            *r == old(self).number,
            final(self).number == *final(r),
    {
        &mut self.number
    }

    /// Sets the counter to `value` and gives the counter back.
    pub fn set_value(&mut self, value: usize) -> (r: &mut Self)
        ensures
            r.number == value,
            *final(self) == *final(r),
    {
        self.number = value;
        self
    }

    /// Adds one to the counter.
    pub fn push_one(&mut self)
        requires
            old(self).number < usize::MAX,
        ensures
            final(self).number == old(self).number + 1,
    {
        self.number += 1;
    }

    /// One counter for each number of `range`, in order.
    pub fn sequencial_numbers(range: std::ops::Range<usize>) -> (r: Vec<Self>)
        ensures
            r.len() == (if range.start < range.end { range.end - range.start } else { 0 }),
            forall|i: int| 0 <= i < r.len() ==> #[trigger] r[i].number == range.start + i,
    {
        let mut reply: Vec<Self> = Vec::new();
        let mut index: usize = range.start;
        while index < range.end
            invariant
                range.start <= index,
                index <= range.end || index == range.start,
                reply.len() == index - range.start,
                forall|i: int| 0 <= i < reply.len() ==> #[trigger] reply[i].number == range.start + i,
            decreases range.end - index,
        {
            reply.push(Self::new(index));
            index += 1;
        }
        reply
    }
}

} // verus!
