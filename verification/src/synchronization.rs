//! Synchronization primitives.
//!
//! A scoped mutual-exclusion wrapper around a value, appropriate for a single
//! active execution context. The wrapper performs no blocking and no
//! hardware-level locking: it exists to express the intent of mutual
//! exclusion in the type system, and to funnel all access to the wrapped
//! value through one choke point, so that a true multi-context lock can later
//! replace it without changing call sites.

use vstd::prelude::*;

verus! {

/// Wraps exactly one owned value and grants exclusive scoped access to it.
///
/// Only correct while a single execution context is active: it relies on the
/// borrow discipline alone, not on any hardware lock.
pub struct NullLock<T> {
    data: T,
}

impl<T> NullLock<T> {
    /// The wrapped value, for contracts.
    pub closed spec fn view_data(&self) -> T {
        self.data
    }

    /// Wrap `data` in a lock.
    pub fn new(data: T) -> (r: Self)
        ensures
            r.view_data() == data,
    {
        NullLock { data }
    }

    /// Grant exclusive access to the wrapped value for the duration of the
    /// returned borrow; the access ends when the borrow does.
    pub fn lock(&mut self) -> (r: &mut T)
        ensures
            *r == old(self).view_data(),
            final(self).view_data() == *final(r),
    {
        &mut self.data
    }

    /// Grant shared, read-only access to the wrapped value.
    pub fn read(&self) -> (r: &T)
        ensures
            *r == self.view_data(),
    {
        &self.data
    }
}

} // verus!
