//! A single-slot wait/signal device: a write signals a binary condition, a
//! read consumes it.
//!
//! The slot is not a counting signal: however many writes arrive, one read
//! consumes the condition and the next read finds it empty again.  The pure
//! transition functions [`signal_step`] and [`consume_step`] carry that law;
//! the device runs them on its locked state.  A real reader blocks until the
//! condition is signalled — blocking and its cancellation belong to the
//! caller's runtime, so here a consume attempt that would block reports
//! [`Error::Busy`] and the surrounding loop retries or suspends.

use std::sync::Arc;
use vstd::prelude::*;

use crate::adapter::adapter_table;
use crate::error::Error;
use crate::guard::GuardedResource;
use crate::guard::share_arc;
use crate::host::HostEntry;
use crate::host::HostNamespace;
use crate::host::create_allowed;
use crate::host::create_error;
use crate::host::created;
use crate::host::entry_of;
use crate::host::has_handle;
use crate::host::removed;
use crate::ops::ProcOperations;
use crate::registration::RustProcRegistration;

verus! {

/// Signalling the slot: it becomes full, whatever it held.
pub open spec fn signal_step(s: bool) -> bool {
    true
}

/// One consume attempt on the slot: the slot empties, and the attempt
/// succeeds exactly when the slot was full.
pub open spec fn consume_step(s: bool) -> (bool, bool) {
    (false, s)
}

/// Law of the single slot: with nothing signalled a consume attempt would
/// block; after a signal exactly one consume succeeds and the next one would
/// block again; and signalling twice before reading still releases only one
/// consume — the slot counts nothing.
pub proof fn lemma_single_slot_wait_signal(s: bool)
    ensures
        !consume_step(false).1,
        consume_step(signal_step(s)).1,
        !consume_step(consume_step(signal_step(s)).0).1,
        consume_step(signal_step(signal_step(s))).1,
        !consume_step(consume_step(signal_step(signal_step(s))).0).1,
{
}

/// The single-slot device: a boolean condition behind the lock.
pub struct CompletionDev {
    state: GuardedResource<bool>,
}

impl CompletionDev {
    /// The device lock admits every slot state.
    #[verifier::type_invariant]
    spec fn wf(self) -> bool {
        forall|t: bool| #[trigger] (self.state.inv())(t)
    }

    /// A fresh device with nothing signalled, shared for the host's
    /// reference counting.
    pub fn try_new() -> (d: Arc<CompletionDev>) {
        Arc::new(CompletionDev { state: GuardedResource::new(false) })
    }

    /// Signal the condition: [`signal_step`] on the locked slot.
    pub fn complete(&self) {
        proof {
            use_type_invariant(self);
        }
        let step = |s: bool| -> (out: (bool, ()))
            ensures
                out.0 == signal_step(s),
            {
                (true, ())
            };
        self.state.with_lock(step)
    }

    /// Attempt to consume the condition: [`consume_step`] on the locked
    /// slot.  Returns whether a pending signal was consumed; `false` means a
    /// blocking reader would now suspend.
    pub fn try_wait(&self) -> bool {
        proof {
            use_type_invariant(self);
        }
        let step = |s: bool| -> (out: (bool, bool))
            ensures
                out == consume_step(s),
            {
                (false, s)
            };
        self.state.with_lock(step)
    }
}

/// The capability implementation backing a wait/signal entry: a write
/// signals and reports the whole buffer consumed; a read consumes a pending
/// signal or reports [`Error::Busy`] to its retry loop.
pub struct RustFile;

impl ProcOperations for RustFile {
    type OpenData = Arc<CompletionDev>;

    type Data = Arc<CompletionDev>;

    fn proc_open(shared: &Arc<CompletionDev>) -> (r: Result<Arc<CompletionDev>, Error>) {
        Ok(share_arc(shared))
    }

    fn proc_read(data: &Arc<CompletionDev>, offset: u64, size: usize) -> (r: Result<
        Vec<u8>,
        Error,
    >) {
        if data.try_wait() {
            Ok(Vec::new())
        } else {
            Err(Error::Busy)
        }
    }

    fn proc_write(data: &Arc<CompletionDev>, offset: u64, buf: &[u8]) -> (r: Result<usize, Error>) {
        data.complete();
        Ok(buf.len())
    }
}

/// The module state owning one wait/signal entry registered at the root,
/// together with its device.
pub struct RustCompletion {
    dev: Arc<CompletionDev>,
    reg: RustProcRegistration,
}

impl RustCompletion {
    /// The owned entry handle, while live.
    pub closed spec fn spec_entry(self) -> Option<u64> {
        self.reg.spec_entry()
    }

    /// The wait/signal device the entry is backed by.
    pub closed spec fn spec_device(self) -> Arc<CompletionDev> {
        self.dev
    }

    /// The handle this object owns, if any, is live in `ns`.
    pub open spec fn valid_in(self, ns: Seq<HostEntry>) -> bool {
        self.spec_entry() matches Some(h) ==> has_handle(ns, h)
    }

    /// The device, to borrow as the shared context of opens.
    pub fn device(&self) -> (r: &Arc<CompletionDev>)
        ensures
            *r == self.spec_device(),
    {
        &self.dev
    }

    /// Set the module up: create a fresh device and register one entry named
    /// `filename` at the root, backed by [`RustFile`].
    pub fn init(ns: &mut HostNamespace, filename: &str) -> (r: Result<RustCompletion, Error>)
        requires
            old(ns).wf(),
        ensures
            final(ns).wf(),
            r is Ok <==> create_allowed(old(ns)@, 0, filename@) && old(ns).can_allocate(),
            r matches Ok(m) ==> (m.spec_entry() matches Some(h) && created(
                old(ns)@,
                final(ns)@,
                0,
                filename@,
                h,
            ) && entry_of(final(ns)@, h).table == Some(adapter_table()) && m.valid_in(final(ns)@)),
            r matches Err(e) ==> *final(ns) == *old(ns) && e == create_error(old(ns)@, 0, filename@),
    {
        let dev = CompletionDev::try_new();
        let mut reg = RustProcRegistration::new(0);
        match reg.register::<RustFile>(ns, filename, None) {
            Ok(()) => Ok(RustCompletion { dev, reg }),
            Err(e) => Err(e),
        }
    }

    /// Tear the entry down.  Idempotent like the handle it owns.
    pub fn shutdown(&mut self, ns: &mut HostNamespace)
        requires
            old(ns).wf(),
            old(self).valid_in(old(ns)@),
        ensures
            final(ns).wf(),
            final(self).spec_entry() is None,
            old(self).spec_entry() is None ==> *final(ns) == *old(ns),
            old(self).spec_entry() matches Some(h) ==> removed(old(ns)@, final(ns)@, h),
    {
        self.reg.remove(ns);
    }
}

} // verus!
