//! A struct whose one private field is a shared lock around a number.
use std::sync::Arc;
use vstd::prelude::*;
use vstd::rwlock::{RwLock, RwLockPredicate};

verus! {

/// The lock holds exactly `value`: nothing writes to it after it is made.
pub struct HoldsValue {
    pub value: i32,
}

impl RwLockPredicate<i32> for HoldsValue {
    open spec fn inv(self, v: i32) -> bool {
        v == self.value
    }
}

/// A number behind a shared lock.
pub struct MyStruct {
    field: Arc<RwLock<i32, HoldsValue>>,
}

impl View for MyStruct {
    type V = i32;

    /// The number that the lock holds.
    closed spec fn view(&self) -> i32 {
        self.field.pred().value
    }
}

impl MyStruct {
    /// A new lock that holds `field`.
    pub fn new(field: i32) -> (r: Self)
        ensures
            r@ == field,
    {
        Self { field: Arc::new(RwLock::new(field, Ghost(HoldsValue { value: field }))) }
    }
}

/// The shared lock that a `MyStruct` holds, taken out of it.
pub fn force_get_private_field_in_wrapper(instance: MyStruct) -> (r: Arc<RwLock<i32, HoldsValue>>)
    ensures
        r.pred().value == instance@,
{
    instance.field
}

} // verus!
