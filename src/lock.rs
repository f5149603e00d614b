//! A value shared between tasks, read and written under a lock, so that
//! every reader sees a whole update or none of it.
use vstd::prelude::*;

use std::sync::Arc;
use vstd::rwlock::{RwLock, WriteHandle};

verus! {

/// A shared handle to a lock-guarded value; `share` hands out another handle
/// to the same value.
#[verifier::reject_recursive_types(T)]
pub struct ArcMutex<T> {
    arc_t: Arc<RwLock<T, spec_fn(T) -> bool>>,
}

/// Exclusive access to the value of an `ArcMutex`, until `unlock`.
#[verifier::reject_recursive_types(T)]
pub struct ArcMutexGuard<'a, T> {
    value: T,
    handle: WriteHandle<'a, T, spec_fn(T) -> bool>,
}

impl<T> ArcMutex<T> {
    /// A new lock holding `t`.
    pub fn new(t: T) -> (r: ArcMutex<T>)
        ensures
            r.wf(),
    {
        let lock = RwLock::new(t, Ghost(|v: T| true));
        ArcMutex { arc_t: Arc::new(lock) }
    }

    /// Any value may be stored.
    pub closed spec fn wf(&self) -> bool {
        self.arc_t.pred() == (|v: T| true)
    }

    /// Another handle to the same value.
    pub fn share(&self) -> (r: ArcMutex<T>)
        ensures
            r == *self,
    {
        ArcMutex { arc_t: Arc::clone(&self.arc_t) }
    }

    /// Waits until no one else holds the lock, then takes it.
    pub fn lock(&self) -> (r: ArcMutexGuard<'_, T>)
        requires
            self.wf(),
        ensures
            r.wf(),
    {
        let (value, handle) = self.arc_t.acquire_write();
        ArcMutexGuard { value, handle }
    }
}

impl<'a, T> View for ArcMutexGuard<'a, T> {
    type V = T;

    closed spec fn view(&self) -> T {
        self.value
    }
}

impl<'a, T> ArcMutexGuard<'a, T> {
    /// The guard belongs to a lock that accepts any value.
    pub closed spec fn wf(&self) -> bool {
        self.handle.rwlock().pred() == (|v: T| true)
    }

    /// The value as it stands under the lock.
    pub fn get(&self) -> (r: &T)
        ensures
            *r == self@,
    {
        &self.value
    }

    /// The value under the lock, to change in place.
    pub fn get_mut(&mut self) -> (r: &mut T)
        ensures
            *r == old(self)@,
            final(self)@ == *final(r),
            final(self).wf() == old(self).wf(),
    {
        &mut self.value
    }

    /// Replaces the value; others see the new one once the lock is released.
    pub fn set(&mut self, t: T)
        ensures
            final(self)@ == t,
            final(self).wf() == old(self).wf(),
    {
        self.value = t;
    }

    /// Releases the lock, publishing the value held.
    pub fn unlock(self)
        requires
            self.wf(),
    {
        let ArcMutexGuard { value, handle } = self;
        handle.release_write(value);
    }
}

} // verus!
