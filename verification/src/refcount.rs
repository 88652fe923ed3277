//! Objects that keep their own reference count.
use vstd::prelude::*;

verus! {

/// A type that keeps itself alive until its reference count reaches zero.
/// Shared across threads, the count is kept atomically.
pub trait ReferenceCounted {
    /// Increments the reference count on the object.
    fn inc_ref(&self);

    /// Decrements the reference count on the object, freeing it when the
    /// count reaches zero. The caller must not use the object afterwards.
    fn dec_ref(&self);
}

} // verus!
