//! A struct generic over a value that can be added to in place.
use vstd::prelude::*;

verus! {

/// What a value needs for `Generic::plus`: adding another value to it in
/// place.
pub trait GenericContract: Sized {
    /// When `self + other` is defined.
    spec fn can_add(self, other: Self) -> bool;

    /// The value `self + other`.
    spec fn added(self, other: Self) -> Self;

    /// Adds `other` to the value.
    fn add_in_place(&mut self, other: Self)
        requires
            old(self).can_add(other),
        ensures
            *final(self) == old(self).added(other),
    ;
}

impl GenericContract for usize {
    open spec fn can_add(self, other: Self) -> bool {
        self + other <= usize::MAX
    }

    open spec fn added(self, other: Self) -> Self {
        (self + other) as usize
    }

    fn add_in_place(&mut self, other: Self) {
        *self += other;
    }
}

/// A holder of one value.
pub struct Generic<T: GenericContract> {
    value: T,
}

impl<T: GenericContract> View for Generic<T> {
    type V = T;

    closed spec fn view(&self) -> T {
        self.value
    }
}

impl<T: GenericContract> Generic<T> {
    /// A holder of `value`.
    pub fn new(value: T) -> (r: Self)
        ensures
            r@ == value,
    {
        Self { value }
    }

    /// Adds the value of `other` to this one.
    pub fn plus(&mut self, other: Self)
        requires
            old(self)@.can_add(other@),
        ensures
            final(self)@ == old(self)@.added(other@),
    {
        self.value.add_in_place(other.value);
    }
}

} // verus!
