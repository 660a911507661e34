//! The shape that the expansion gives a struct of two fields, written by
//! hand: the core, the wrapper with its builder and an accessor pair per
//! field, and the guards that the accessors give. A guard holds its lock
//! until `release` is called on it.
use std::sync::Arc;
use vstd::prelude::*;
use vstd::rwlock::{ReadHandle, RwLock, WriteHandle};
use vstd::string::*;
use crate::shared::{clone_shared, same_lock, share, AnyValue};
use crate::text::{decimal, decimal_text};

verus! {

/// The core: two counters.
pub struct _Base {
    pub value: usize,
    pub value_2: usize,
}

/// The text with which the core is shown.
pub open spec fn base_text(b: _Base) -> Seq<char> {
    "Wrapper { value: "@ + decimal(b.value as nat) + ", value_2: "@ + decimal(b.value_2 as nat)
        + " }"@
}

impl _Base {
    /// The text with which the core is shown, as a derived `Debug` of a
    /// struct named `Wrapper` shows it.
    pub fn debug_text(&self) -> (r: String)
        ensures
            r@ == base_text(*self),
    {
        let mut r = String::from_str("Wrapper { value: ");
        let v = decimal_text(self.value as u64);
        r.append(v.as_str());
        r.append(", value_2: ");
        let w = decimal_text(self.value_2 as u64);
        r.append(w.as_str());
        r.append(" }");
        r
    }

    /// Adds one to the first counter.
    pub fn plus(&mut self)
        requires
            old(self).value < usize::MAX,
        ensures
            final(self).value == old(self).value + 1,
            final(self).value_2 == old(self).value_2,
    {
        self.value += 1;
    }
}

/// One of the two counters.
#[derive(PartialEq, Eq, Structural, Clone, Copy)]
pub enum BaseField {
    Value,
    Value2,
}

/// The counter `field` of a core.
pub open spec fn field_of(b: _Base, field: BaseField) -> usize {
    match field {
        BaseField::Value => b.value,
        BaseField::Value2 => b.value_2,
    }
}

/// The wrapper: the core behind a shared lock; a clone shares the core.
pub struct Wrapper {
    base: Arc<RwLock<_Base, AnyValue>>,
}

impl Clone for Wrapper {
    /// A clone shares the lock, and so the core, of the original.
    fn clone(&self) -> (r: Self)
        ensures
            r == *self,
    {
        Wrapper { base: clone_shared(&self.base) }
    }
}

/// A read guard on one counter of a wrapper's core.
pub struct RefLockWrapper<'a> {
    handle: ReadHandle<'a, _Base, AnyValue>,
    field: BaseField,
}

impl<'a> RefLockWrapper<'a> {
    /// The counter that the guard is for.
    pub closed spec fn guarded_field(&self) -> BaseField {
        self.field
    }

    /// The counter as the lock holds it.
    pub closed spec fn view(&self) -> usize {
        field_of(self.handle.view(), self.field)
    }

    /// The counter.
    pub fn get(&self) -> (r: &usize)
        ensures
            *r == self@,
    {
        let base = self.handle.borrow();
        match self.field {
            BaseField::Value => &base.value,
            BaseField::Value2 => &base.value_2,
        }
    }

    /// Releases the lock.
    pub fn release(self) {
        self.handle.release_read();
    }
}

/// A write guard on one counter of a wrapper's core; the core stays out of
/// the lock until `release` puts it back.
pub struct RefMutLockWrapper<'a> {
    value: _Base,
    handle: WriteHandle<'a, _Base, AnyValue>,
    field: BaseField,
}

impl<'a> RefMutLockWrapper<'a> {
    /// The counter that the guard is for.
    pub closed spec fn guarded_field(&self) -> BaseField {
        self.field
    }

    /// The counter as the guard holds it.
    pub closed spec fn view(&self) -> usize {
        field_of(self.value, self.field)
    }

    /// The counter.
    pub fn get(&self) -> (r: &usize)
        ensures
            *r == self@,
    {
        match self.field {
            BaseField::Value => &self.value.value,
            BaseField::Value2 => &self.value.value_2,
        }
    }

    /// The counter, to change.
    pub fn get_mut(&mut self) -> (r: &mut usize)
        ensures
            *r == old(self)@,
            final(self)@ == *final(r),
    {
        match self.field {
            BaseField::Value => &mut self.value.value,
            BaseField::Value2 => &mut self.value.value_2,
        }
    }

    /// Puts the core back and releases the lock.
    pub fn release(self) {
        self.handle.release_write(self.value);
    }
}

impl Wrapper {
    /// A wrapper over a new core that holds the two counters.
    pub fn builder(value: usize, value_2: usize) -> Self {
        Self::from_base(_Base { value, value_2 })
    }

    /// Takes the write lock, for the first counter.
    pub fn value_mut(&mut self) -> (r: RefMutLockWrapper<'_>)
        ensures
            r.guarded_field() == BaseField::Value,
    {
        let (value, handle) = self.base.acquire_write();
        RefMutLockWrapper { value, handle, field: BaseField::Value }
    }

    /// Takes the read lock, for the first counter.
    pub fn value(&self) -> (r: RefLockWrapper<'_>)
        ensures
            r.guarded_field() == BaseField::Value,
    {
        RefLockWrapper { handle: self.base.acquire_read(), field: BaseField::Value }
    }

    /// Takes the write lock, for the second counter.
    pub fn value_2_mut(&mut self) -> (r: RefMutLockWrapper<'_>)
        ensures
            r.guarded_field() == BaseField::Value2,
    {
        let (value, handle) = self.base.acquire_write();
        RefMutLockWrapper { value, handle, field: BaseField::Value2 }
    }

    /// Takes the read lock, for the second counter.
    pub fn value_2(&self) -> (r: RefLockWrapper<'_>)
        ensures
            r.guarded_field() == BaseField::Value2,
    {
        RefLockWrapper { handle: self.base.acquire_read(), field: BaseField::Value2 }
    }

    /// A wrapper over the given core.
    pub fn from_base(base: _Base) -> Self {
        Self { base: share(base) }
    }

    /// The core of this wrapper, taken under the write lock; the lock keeps a
    /// core that holds the same counters.
    pub fn into_base(self) -> _Base {
        let (base, handle) = self.base.acquire_write();
        handle.release_write(_Base { value: base.value, value_2: base.value_2 });
        base
    }

    /// The two wrappers share one core: the identity by which wrappers are equal.
    pub fn same_instance(&self, other: &Self) -> (r: bool)
        ensures
            r ==> *self == *other,
    {
        same_lock(&self.base, &other.base)
    }

    /// The text with which the wrapper is shown: that of its core, read
    /// under the read lock.
    pub fn debug_text(&self) -> (r: String)
        ensures
            exists|c: _Base| #[trigger] base_text(c) == r@,
    {
        let handle = self.base.acquire_read();
        let core = handle.borrow();
        let text = core.debug_text();
        assert(base_text(*core) == text@);
        handle.release_read();
        text
    }

    /// A wrapper over a new core whose counters are zero.
    pub fn new() -> Self {
        Wrapper::builder(0, 0)
    }
}

} // verus!
