//! The mutual-exclusion wrapper handler state lives behind.
//!
//! Host callbacks arrive through shared references, concurrently and from
//! arbitrary threads, so a handler cannot mutate its own state directly.
//! [`GuardedResource`] is the one sanctioned path: it owns the state behind a
//! lock, and [`GuardedResource::with_lock`] runs a caller-supplied step on it
//! as one scoped acquire/run/release — the lock is released on every exit
//! path, no reference to the interior escapes, and every observed result is
//! the outcome of one complete application of the step to one stored value
//! satisfying the lock's invariant, so no partial update is ever visible.
//!
//! Acquisition is not recursive: reacquiring from inside the step deadlocks
//! by design.

use std::sync::Arc;
use vstd::prelude::*;
use vstd::rwlock::RwLock;

verus! {

/// Relies on `Arc::clone`: the clone is a new reference-counted pointer to
/// the same allocation, so its value is the shared value itself.
#[verifier::external_body]
pub fn share_arc<T>(a: &Arc<T>) -> (res: Arc<T>)
    ensures
        res == *a,
{
    a.clone()
}

/// Handler-owned mutable state `T`, exposed safely through a shared
/// reference.
#[verifier::reject_recursive_types(T)]
pub struct GuardedResource<T> {
    lock: RwLock<T, spec_fn(T) -> bool>,
}

impl<T> GuardedResource<T> {
    /// The invariant every value stored in the lock satisfies.
    pub closed spec fn inv(&self) -> spec_fn(T) -> bool {
        self.lock.pred()
    }

    /// Wrap `val`, constraining this and every later stored value by `inv`.
    pub fn with_invariant(val: T, Ghost(inv): Ghost<spec_fn(T) -> bool>) -> (s: Self)
        requires
            inv(val),
        ensures
            s.inv() == inv,
    {
        GuardedResource { lock: RwLock::new(val, Ghost(inv)) }
    }

    /// Wrap `val` with the trivial invariant.
    pub fn new(val: T) -> (s: Self)
        ensures
            forall|t: T| #[trigger] (s.inv())(t),
    {
        Self::with_invariant(val, Ghost(|t: T| true))
    }

    /// Acquire the lock, run `f` on the stored value, store the state `f`
    /// hands back, release the lock, and return `f`'s result.
    ///
    /// The caller must show that `f` accepts every value the invariant
    /// admits and re-establishes the invariant on the state it returns.  In
    /// exchange, the result is known to come from one complete application
    /// of `f` to one invariant-satisfying value — the serialization
    /// guarantee behind every contract stated over this wrapper.
    pub fn with_lock<R, F: FnOnce(T) -> (T, R)>(&self, f: F) -> (r: R)
        requires
            forall|t: T| (self.inv())(t) ==> #[trigger] call_requires(f, (t,)),
            forall|t: T, out: (T, R)| #[trigger] call_ensures(f, (t,), out) ==> (self.inv())(out.0),
        ensures
            exists|t: T, out: (T, R)|
                (self.inv())(t) && #[trigger] call_ensures(f, (t,), out) && out.1 == r,
    {
        let (val, handle) = self.lock.acquire_write();
        let (newval, r) = f(val);
        handle.release_write(newval);
        r
    }

    /// Take the state back out, consuming the wrapper.
    pub fn into_inner(self) -> (t: T)
        ensures
            (self.inv())(t),
    {
        let (val, handle) = self.lock.acquire_write();
        // The lock is dropped with the handle outstanding; the wrapper is
        // consumed, so nothing can observe it again.
        let _ = handle;
        val
    }
}

} // verus!
