//! The shape that the expansion gives a struct and its `impl` block, written
//! by hand: a core with its methods, and a wrapper that holds the core behind
//! a shared lock and forwards every method to it. The guards of this module
//! hold their lock until `release` is called on them.
use std::sync::Arc;
use vstd::prelude::*;
use vstd::rwlock::{ReadHandle, RwLock, WriteHandle};
use crate::shared::{clone_shared, share, AnyValue};

verus! {

/// The core: one counter.
pub struct Base {
    pub value: usize,
}

/// The sum of the counters of `items`.
pub open spec fn sum_values(items: Seq<Base>) -> int
    decreases items.len(),
{
    if items.len() == 0 {
        0
    } else {
        sum_values(items.drop_last()) + items.last().value
    }
}

proof fn lemma_sum_values_prefix(items: Seq<Base>, k: int)
    requires
        0 <= k <= items.len(),
    ensures
        sum_values(items.take(k)) <= sum_values(items),
    decreases items.len() - k,
{
    if k < items.len() {
        lemma_sum_values_prefix(items, k + 1);
        assert(items.take(k + 1).drop_last() =~= items.take(k));
    } else {
        assert(items.take(k) =~= items);
    }
}

impl Base {
    /// A core that holds `value`.
    pub fn new(value: usize) -> (r: Self)
        ensures
            r.value == value,
    {
        Self { value }
    }

    /// Adds one to the counter.
    pub fn plus_one(&mut self)
        requires
            old(self).value < usize::MAX,
        ensures
            final(self).value == old(self).value + 1,
    {
        self.value += 1;
    }

    /// Adds the counter of `other` and gives the core back.
    pub fn plus(&mut self, other: Self) -> (r: &mut Self)
        requires
            old(self).value + other.value <= usize::MAX,
        ensures
            r.value == old(self).value + other.value,
            *final(self) == *final(r),
    {
        self.value += other.value;
        self
    }

    /// A core that holds the sum of the two counters.
    pub fn plus_static(a: Self, b: Self) -> (r: Self)
        requires
            a.value + b.value <= usize::MAX,
        ensures
            r.value == a.value + b.value,
    {
        Self::new(a.value + b.value)
    }

    /// The counter, to change.
    pub fn mut_value(&mut self) -> (r: &mut usize)
        ensures
            *r == old(self).value,
            final(self).value == *final(r),
    {
        &mut self.value
    }

    /// The counter, by reference.
    pub fn ref_value(&self) -> (r: &usize)
        ensures
            *r == self.value,
    {
        &self.value
    }

    /// The counter.
    pub fn copy_value(&self) -> (r: usize)
        ensures
            r == self.value,
    {
        self.value
    }

    /// A core that holds the sum of the counters of two locked cores.
    pub fn plus_static_manipulate(a: &Self, b: &Self) -> (r: Self)
        requires
            a.value + b.value <= usize::MAX,
        ensures
            r.value == a.value + b.value,
    {
        Self::new(a.value + b.value)
    }

    /// Adds `other_value` to the counter of `b` and to this counter.
    pub fn plus_manipulate(&mut self, other_value: &usize, b: &mut Self)
        requires
            old(b).value + *other_value <= usize::MAX,
            old(self).value + *other_value <= usize::MAX,
        ensures
            final(b).value == old(b).value + *other_value,
            final(self).value == old(self).value + *other_value,
    {
        b.value += *other_value;
        self.value += *other_value;
    }

    /// The cores that hold `0`, `1`, .., `max - 1`, in that order.
    pub fn get_vec(max: usize) -> (r: Vec<Base>)
        ensures
            r@.len() == max,
            forall|i: int| 0 <= i < max ==> (#[trigger] r@[i]).value == i,
    {
        let mut reply: Vec<Base> = Vec::new();
        let mut i: usize = 0;
        while i < max
            invariant
                i <= max,
                reply@.len() == i,
                forall|j: int| 0 <= j < i ==> (#[trigger] reply@[j]).value == j,
            decreases max - i,
        {
            reply.push(Self { value: i });
            i = i + 1;
        }
        reply
    }

    /// A core that holds the sum of the counters of `multiples`.
    pub fn multiple_plus(multiples: Vec<Self>) -> (r: Self)
        requires
            sum_values(multiples@) <= usize::MAX,
        ensures
            r.value == sum_values(multiples@),
    {
        Self::multiple_plus_slice(multiples.as_slice())
    }

    /// A core that holds the sum of the counters of `multiples`.
    pub fn multiple_plus_slice(multiples: &[Self]) -> (r: Self)
        requires
            sum_values(multiples@) <= usize::MAX,
        ensures
            r.value == sum_values(multiples@),
    {
        let mut reply = Self::new(0);
        let mut i: usize = 0;
        while i < multiples.len()
            invariant
                i <= multiples.len(),
                sum_values(multiples@) <= usize::MAX,
                reply.value == sum_values(multiples@.take(i as int)),
            decreases multiples.len() - i,
        {
            proof {
                lemma_sum_values_prefix(multiples@, i + 1);
                assert(multiples@.take(i + 1).drop_last() =~= multiples@.take(i as int));
            }
            reply.value += multiples[i].value;
            i = i + 1;
        }
        assert(multiples@.take(multiples.len() as int) =~= multiples@);
        reply
    }
}

/// The wrapper: the core behind a shared lock; a clone shares the core.
pub struct Wrapper {
    base: Arc<RwLock<Base, AnyValue>>,
}

impl Clone for Wrapper {
    /// A clone shares the lock, and so the core, of the original.
    fn clone(&self) -> (r: Self)
        ensures
            r == *self,
    {
        Wrapper { base: clone_shared(&self.base) }
    }
}

/// A read guard on the counter of a wrapper's core.
pub struct RefLockWrapper<'a> {
    handle: ReadHandle<'a, Base, AnyValue>,
}

impl<'a> RefLockWrapper<'a> {
    /// The lock that the guard holds.
    pub closed spec fn lock(&self) -> RwLock<Base, AnyValue> {
        self.handle.rwlock()
    }

    /// The counter as the lock holds it.
    pub closed spec fn view(&self) -> usize {
        self.handle.view().value
    }

    /// The counter.
    pub fn get(&self) -> (r: &usize)
        ensures
            *r == self@,
    {
        &self.handle.borrow().value
    }

    /// Releases the lock.
    pub fn release(self) {
        self.handle.release_read();
    }
}

/// A write guard on the counter of a wrapper's core; the core stays out of
/// the lock until `release` puts it back.
pub struct RefMutLockWrapper<'a> {
    value: Base,
    handle: WriteHandle<'a, Base, AnyValue>,
}

impl<'a> RefMutLockWrapper<'a> {
    /// The lock that the guard holds.
    pub closed spec fn lock(&self) -> RwLock<Base, AnyValue> {
        self.handle.rwlock()
    }

    /// The counter as the guard holds it.
    pub closed spec fn view(&self) -> usize {
        self.value.value
    }

    /// The counter.
    pub fn get(&self) -> (r: &usize)
        ensures
            *r == self@,
    {
        &self.value.value
    }

    /// The counter, to change.
    pub fn get_mut(&mut self) -> (r: &mut usize)
        ensures
            *r == old(self)@,
            final(self)@ == *final(r),
    {
        &mut self.value.value
    }

    /// Puts the core back and releases the lock.
    pub fn release(self) {
        self.handle.release_write(self.value);
    }
}

impl Wrapper {
    /// The shared lock of the wrapper's core; clones share it.
    pub closed spec fn lock(&self) -> RwLock<Base, AnyValue> {
        *self.base
    }

    /// A wrapper over a new core that holds `value`.
    pub fn new(value: usize) -> Self {
        Self::from_base(Base::new(value))
    }

    /// Adds one to the counter of the shared core; a counter at `usize::MAX`
    /// stays as it is.
    pub fn plus_one(&mut self) {
        let (mut base, handle) = self.base.acquire_write();
        if base.value < usize::MAX {
            base.plus_one();
        }
        handle.release_write(base);
    }

    /// Adds the counter of `other`'s core to the counter of the shared core
    /// and gives the wrapper back; a sum beyond `usize::MAX` leaves the
    /// counter as it is.
    pub fn plus(&mut self, other: Self) -> (r: &mut Self)
        ensures
            *r == *old(self),
            *final(self) == *final(r),
    {
        let (mut base, handle) = self.base.acquire_write();
        let other = other.into_base();
        if base.value <= usize::MAX - other.value {
            base.plus(other);
        }
        handle.release_write(base);
        self
    }

    /// A wrapper over a new core that holds the sum of the two counters; a
    /// sum beyond `usize::MAX` gives the counter of `a`.
    pub fn plus_static(a: Self, b: Self) -> Self {
        let a = a.into_base();
        let b = b.into_base();
        if a.value <= usize::MAX - b.value {
            Self::from_base(Base::plus_static(a, b))
        } else {
            Self::from_base(a)
        }
    }

    /// Takes the write lock of the shared core, for its counter.
    pub fn mut_value(&mut self) -> (r: RefMutLockWrapper<'_>)
        ensures
            r.lock() == old(self).lock(),
    {
        let (value, handle) = self.base.acquire_write();
        RefMutLockWrapper { value, handle }
    }

    /// Takes the read lock of the shared core, for its counter.
    pub fn ref_value(&mut self) -> (r: RefLockWrapper<'_>)
        ensures
            r.lock() == old(self).lock(),
    {
        RefLockWrapper { handle: self.base.acquire_read() }
    }

    /// The counter of the shared core, read under the read lock.
    pub fn copy_value(&self) -> usize {
        let handle = self.base.acquire_read();
        let reply = handle.borrow().copy_value();
        handle.release_read();
        reply
    }

    /// A wrapper over a new core that holds the sum of the counters of the
    /// two cores, read under their read locks; a sum beyond `usize::MAX` gives
    /// the counter of `a`.
    pub fn plus_static_manipulate(a: Self, b: Self) -> Self {
        let ha = a.base.acquire_read();
        let hb = b.base.acquire_read();
        let x = ha.borrow();
        let y = hb.borrow();
        let reply = if x.value <= usize::MAX - y.value {
            Base::plus_static_manipulate(x, y)
        } else {
            Base::new(x.value)
        };
        ha.release_read();
        hb.release_read();
        Self::from_base(reply)
    }

    /// Adds `other_value` to the counters of the shared core and of `b`'s
    /// core, under both write locks; when either sum goes beyond
    /// `usize::MAX`, both counters stay as they are.
    pub fn plus_manipulate(&mut self, other_value: &usize, b: Self) {
        let (mut base, handle) = self.base.acquire_write();
        let (mut other, other_handle) = b.base.acquire_write();
        if base.value <= usize::MAX - *other_value && other.value <= usize::MAX - *other_value {
            base.plus_manipulate(other_value, &mut other);
        }
        other_handle.release_write(other);
        handle.release_write(base);
    }

    /// Wrappers over cores that hold `0`, `1`, .., `max - 1`, in that order.
    pub fn get_vec(max: usize) -> (r: Vec<Wrapper>)
        ensures
            r@.len() == max,
    {
        Self::into_vec_wrapper(Base::get_vec(max))
    }

    /// A wrapper over a new core that holds the sum of the counters of the
    /// cores of `multiples`; when the sum goes beyond `usize::MAX`, the new
    /// core holds zero.
    pub fn multiple_plus(multiples: Vec<Self>) -> Self {
        let bases = Self::into_vec_base(multiples);
        if sum_fits(&bases) {
            Self::from_base(Base::multiple_plus(bases))
        } else {
            Self::from_base(Base::new(0))
        }
    }

    /// As `multiple_plus`, over a slice of wrappers.
    pub fn multiple_plus_slice(multiples: &[Self]) -> Self {
        let mut all: Vec<Self> = Vec::new();
        let mut i: usize = 0;
        while i < multiples.len()
            decreases multiples.len() - i,
        {
            all.push(multiples[i].clone());
            i = i + 1;
        }
        let bases = Self::into_vec_base(all);
        if sum_fits(&bases) {
            Self::from_base(Base::multiple_plus_slice(bases.as_slice()))
        } else {
            Self::from_base(Base::new(0))
        }
    }

    /// Wrappers over the given cores, in order.
    pub fn into_vec_wrapper(bases: Vec<Base>) -> (r: Vec<Wrapper>)
        ensures
            r@.len() == bases@.len(),
    {
        let mut bases = bases;
        let mut reply: Vec<Wrapper> = Vec::new();
        let ghost n = bases@.len();
        while bases.len() > 0
            invariant
                reply@.len() + bases@.len() == n,
            decreases bases.len(),
        {
            let b = bases.remove(0);
            reply.push(Self::from_base(b));
        }
        reply
    }

    /// The cores of the given wrappers, in order, each taken under its write
    /// lock; the wrappers keep a core that holds the same counter.
    pub fn into_vec_base(multiples: Vec<Wrapper>) -> (r: Vec<Base>)
        ensures
            r@.len() == multiples@.len(),
    {
        let mut reply: Vec<Base> = Vec::new();
        let mut i: usize = 0;
        while i < multiples.len()
            invariant
                i <= multiples.len(),
                reply@.len() == i,
            decreases multiples.len() - i,
        {
            reply.push(multiples[i].clone().into_base());
            i = i + 1;
        }
        reply
    }

    /// A wrapper over the given core.
    pub fn from_base(base: Base) -> Self {
        Self { base: share(base) }
    }

    /// The core of this wrapper, taken under the write lock; the lock keeps a
    /// core that holds the same counter.
    pub fn into_base(self) -> Base {
        let (base, handle) = self.base.acquire_write();
        handle.release_write(Base::new(base.value));
        base
    }
}

/// Whether the counters of `bases` add up to at most `usize::MAX`.
pub fn sum_fits(bases: &Vec<Base>) -> (r: bool)
    ensures
        r == (sum_values(bases@) <= usize::MAX),
{
    let mut total: usize = 0;
    let mut i: usize = 0;
    while i < bases.len()
        invariant
            i <= bases.len(),
            total == sum_values(bases@.take(i as int)),
        decreases bases.len() - i,
    {
        assert(bases@.take(i + 1).drop_last() =~= bases@.take(i as int));
        if total > usize::MAX - bases[i].value {
            proof {
                lemma_sum_values_prefix(bases@, i + 1);
            }
            return false;
        }
        total = total + bases[i].value;
        i = i + 1;
    }
    assert(bases@.take(bases.len() as int) =~= bases@);
    true
}

} // verus!
