//! A marker trait for the type parameter of a generic struct.
use vstd::prelude::*;

verus! {

/// A marker trait: it asks nothing of the types that have it.
pub trait A {
}

} // verus!
