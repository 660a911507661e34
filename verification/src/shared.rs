//! The shared lock that the wrappers hold their core in.
use std::sync::Arc;
use vstd::prelude::*;
use vstd::rwlock::{RwLock, RwLockPredicate};

verus! {

/// The lock admits every value: the wrappers keep no invariant of their own
/// on the core.
pub struct AnyValue;

impl<V> RwLockPredicate<V> for AnyValue {
    open spec fn inv(self, v: V) -> bool {
        true
    }
}

/// A new shared lock that holds `value`.
pub fn share<V>(value: V) -> (r: Arc<RwLock<V, AnyValue>>)
    ensures
        r.pred() == AnyValue,
{
    Arc::new(RwLock::new(value, Ghost(AnyValue)))
}

/// Another pointer to the same shared value.
///
/// Calls `Arc::clone`, which makes a new pointer to the same allocation; what
/// is claimed is that the new pointer points to the same value.
#[verifier::external_body]
pub fn clone_shared<T>(a: &Arc<T>) -> (r: Arc<T>)
    ensures
        r == *a,
{
    Arc::clone(a)
}

/// Two shared locks are the same allocation.
///
/// Calls `Arc::ptr_eq`, which compares the addresses of the two allocations;
/// what is claimed is that the same allocation holds the same lock.
#[verifier::external_body]
pub fn same_lock<V>(a: &Arc<RwLock<V, AnyValue>>, b: &Arc<RwLock<V, AnyValue>>) -> (r: bool)
    ensures
        r ==> a == b,
{
    Arc::ptr_eq(a, b)
}

} // verus!
