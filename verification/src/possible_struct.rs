//! A hand-written wrapper over a one-field core, one method per combination
//! of receiver, parameter and return type that the expansion handles. The
//! methods that print in the core return the printed line instead, for the
//! caller to print.
use std::sync::Arc;
use vstd::prelude::*;
use vstd::rwlock::{ReadHandle, RwLock, WriteHandle};
use crate::shared::{clone_shared, share, AnyValue};
use crate::text::{decimal, decimal_text};

verus! {

/// The core: one counter.
pub struct Base {
    pub value: usize,
}

impl Base {
    /// The line that prints `value`.
    pub fn none_some_none(value: usize) -> (r: String)
        ensures
            r@ == decimal(value as nat),
    {
        decimal_text(value as u64)
    }

    /// The line that prints the counter.
    pub fn refself_none_none(&self) -> (r: String)
        ensures
            r@ == decimal(self.value as nat),
    {
        decimal_text(self.value as u64)
    }

    /// Resets the counter.
    pub fn refmutself_none_none(&mut self)
        ensures
            final(self).value == 0,
    {
        self.value = 0;
    }

    /// The line that prints `value`.
    pub fn refself_some_none(&self, value: usize) -> (r: String)
        ensures
            r@ == decimal(value as nat),
    {
        decimal_text(value as u64)
    }

    /// Resets the counter.
    pub fn refmutself_some_none(&mut self)
        ensures
            final(self).value == 0,
    {
        self.value = 0;
    }

    /// The counter.
    pub fn refself_none_type(&self) -> (r: usize)
        ensures
            r == self.value,
    {
        self.value
    }

    /// A core that holds `value`.
    pub fn none_some_type(value: usize) -> (r: Self)
        ensures
            r.value == value,
    {
        Self { value }
    }

    /// The counter, by reference.
    pub fn refself_none_reftype(&self) -> (r: &usize)
        ensures
            *r == self.value,
    {
        &self.value
    }

    /// The counter, by mutable reference.
    pub fn refmutself_some_refmuttype(&mut self) -> (r: &mut usize)
        ensures
            *r == old(self).value,
            final(self).value == *final(r),
    {
        &mut self.value
    }

    /// A core that holds zero.
    pub fn none_none_type() -> (r: Self)
        ensures
            r.value == 0,
    {
        Self { value: 0 }
    }

    /// The core itself.
    pub fn refmutself_none_remuttype(&mut self) -> (r: &mut Self)
        ensures
            *r == *old(self),
            *final(self) == *final(r),
    {
        self
    }

    /// Sets the counter and gives the core back.
    pub fn refmutself_some_remuttype(&mut self, value: usize) -> (r: &mut Self)
        ensures
            r.value == value,
            *final(self) == *final(r),
    {
        self.value = value;
        self
    }
}

/// The wrapper: the core behind a shared lock; a clone shares the core.
pub struct A {
    base: Arc<RwLock<Base, AnyValue>>,
}

impl Clone for A {
    /// A clone shares the lock, and so the core, of the original.
    fn clone(&self) -> (r: Self)
        ensures
            r == *self,
    {
        A { base: clone_shared(&self.base) }
    }
}

/// The write lock of an `A`, with the core taken out of the lock while it is
/// held. The lock is given back by `release`.
pub struct BaseWriteGuard<'a> {
    value: Base,
    handle: WriteHandle<'a, Base, AnyValue>,
}

impl<'a> BaseWriteGuard<'a> {
    /// The lock that the guard holds.
    pub closed spec fn lock(&self) -> RwLock<Base, AnyValue> {
        self.handle.rwlock()
    }

    /// The core as the guard holds it.
    pub closed spec fn view(&self) -> Base {
        self.value
    }

    /// The core.
    pub fn get(&self) -> (r: &Base)
        ensures
            *r == self@,
    {
        &self.value
    }

    /// The core, to change.
    pub fn get_mut(&mut self) -> (r: &mut Base)
        ensures
            *r == old(self)@,
            final(self)@ == *final(r),
    {
        &mut self.value
    }

    /// Puts the core back and releases the lock.
    pub fn release(self) {
        self.handle.release_write(self.value);
    }
}

/// The read lock of an `A`. The lock is given back by `release`.
pub struct BaseReadGuard<'a> {
    handle: ReadHandle<'a, Base, AnyValue>,
}

impl<'a> BaseReadGuard<'a> {
    /// The lock that the guard holds.
    pub closed spec fn lock(&self) -> RwLock<Base, AnyValue> {
        self.handle.rwlock()
    }

    /// The core as the lock holds it.
    pub closed spec fn view(&self) -> Base {
        self.handle.view()
    }

    /// The core.
    pub fn get(&self) -> (r: &Base)
        ensures
            *r == self@,
    {
        self.handle.borrow()
    }

    /// Releases the lock.
    pub fn release(self) {
        self.handle.release_read();
    }
}

/// `s` is the decimal writing of some counter.
pub open spec fn is_counter_line(s: Seq<char>) -> bool {
    exists|v: nat| v <= usize::MAX && #[trigger] decimal(v) == s
}

impl A {
    /// The shared lock of the wrapper's core; clones share it.
    pub closed spec fn lock(&self) -> RwLock<Base, AnyValue> {
        *self.base
    }

    /// The line that prints `value`.
    pub fn none_some_none(value: usize) -> (r: String)
        ensures
            r@ == decimal(value as nat),
    {
        Base::none_some_none(value)
    }

    /// The line that prints the counter, read under the read lock.
    pub fn refself_none_none(&self) -> (r: String)
        ensures
            is_counter_line(r@),
    {
        let handle = self.base.acquire_read();
        let core = handle.borrow();
        let line = core.refself_none_none();
        assert(decimal(core.value as nat) == line@);
        handle.release_read();
        line
    }

    /// The line that prints the counter, read under the write lock.
    pub fn refmutself_none_none(&mut self) -> (r: String)
        ensures
            is_counter_line(r@),
    {
        let (base, handle) = self.base.acquire_write();
        let line = base.refself_none_none();
        assert(decimal(base.value as nat) == line@);
        handle.release_write(base);
        line
    }

    /// The line that prints `value`, printed under the read lock.
    pub fn refself_some_none(&self, value: usize) -> (r: String)
        ensures
            r@ == decimal(value as nat),
    {
        let handle = self.base.acquire_read();
        let line = handle.borrow().refself_some_none(value);
        handle.release_read();
        line
    }

    /// Resets the counter of the shared core.
    pub fn refmutself_some_none(&mut self) {
        let (mut base, handle) = self.base.acquire_write();
        base.refmutself_some_none();
        handle.release_write(base);
    }

    /// The counter of the shared core, read under the read lock.
    pub fn refself_none_type(&self) -> usize {
        let handle = self.base.acquire_read();
        let value = handle.borrow().refself_none_type();
        handle.release_read();
        value
    }

    /// A wrapper over a new core that holds `value`.
    pub fn none_some_type(value: usize) -> Self {
        Self { base: share(Base::none_some_type(value)) }
    }

    /// A wrapper over a new core that holds zero.
    pub fn none_none_type() -> Self {
        Self { base: share(Base::none_none_type()) }
    }

    /// The wrapper itself.
    pub fn refmutself_none_remuttype(&mut self) -> (r: &mut Self)
        ensures
            *r == *old(self),
            *final(self) == *final(r),
    {
        self
    }

    /// Sets the counter of the shared core and gives the wrapper back.
    pub fn refmutself_some_remuttype(&self, value: usize) -> (r: &Self)
        ensures
            *r == *self,
    {
        let (mut base, handle) = self.base.acquire_write();
        base.refmutself_some_remuttype(value);
        handle.release_write(base);
        self
    }

    /// Takes the write lock of the shared core.
    pub fn write(&mut self) -> (r: BaseWriteGuard<'_>)
        ensures
            r.lock() == old(self).lock(),
    {
        let (value, handle) = self.base.acquire_write();
        BaseWriteGuard { value, handle }
    }

    /// Takes the read lock of the shared core.
    pub fn read(&mut self) -> (r: BaseReadGuard<'_>)
        ensures
            r.lock() == old(self).lock(),
    {
        BaseReadGuard { handle: self.base.acquire_read() }
    }
}

} // verus!
