//! A buffered pseudo-device: the byte store of [`crate::store`] behind a
//! [`GuardedResource`], shared between the host's opens through reference
//! counting, with the capability implementation that backs it.
//!
//! Every callback reaches the device through a shared reference, so all
//! mutation runs under the lock; each call's outcome is the result of one
//! complete step on one locked snapshot of the device state.

use std::sync::Arc;
use vstd::prelude::*;

use crate::adapter::adapter_table;
use crate::error::Error;
use crate::guard::GuardedResource;
use crate::guard::share_arc;
use crate::host::HostEntry;
use crate::host::HostNamespace;
use crate::host::create_allowed;
use crate::host::create_error;
use crate::host::entry_of;
use crate::host::has_handle;
use crate::host::lemma_unwind_creation;
use crate::host::live_named;
use crate::ops::ProcOperations;
use crate::registration::RustProcRegistration;
use crate::registration::distinct_opt;
use crate::store::BufferedStore;
use crate::store::read_result;
use crate::store::write_result;

verus! {

/// The lock-protected inner state: an open counter and the byte store.
pub struct ScullDevInner {
    /// How many opens the device has seen (saturating).
    pub counter: u64,
    /// The device contents.
    pub store: BufferedStore,
}

/// One buffered pseudo-device instance.
pub struct ScullDev {
    name: String,
    number: usize,
    inner: GuardedResource<ScullDevInner>,
}

impl ScullDev {
    /// The device's configured name.
    pub closed spec fn spec_name(self) -> Seq<char> {
        self.name@
    }

    /// The device's configured number.
    pub closed spec fn spec_number(self) -> usize {
        self.number
    }

    /// The device lock admits every inner state.
    #[verifier::type_invariant]
    spec fn wf(self) -> bool {
        forall|t: ScullDevInner| #[trigger] (self.inner.inv())(t)
    }

    /// A fresh device: empty contents, zero opens, shared for the host's
    /// reference counting.
    pub fn try_new(name: String, number: usize) -> (d: Arc<ScullDev>)
        ensures
            d.spec_name() == name@,
            d.spec_number() == number,
    {
        let inner = ScullDevInner { counter: 0, store: BufferedStore::new() };
        let dev = ScullDev { name, number, inner: GuardedResource::new(inner) };
        Arc::new(dev)
    }

    /// The device's configured name.
    pub fn name(&self) -> (r: &String)
        ensures
            r@ == self.spec_name(),
    {
        &self.name
    }

    /// The device's configured number.
    pub fn number(&self) -> (r: usize)
        ensures
            r == self.spec_number(),
    {
        self.number
    }

    /// Count one open, returning the new count.  The count saturates rather
    /// than wrap.
    pub fn note_open(&self) -> (r: u64)
        ensures
            exists|prev: u64|
                r == #[trigger] saturating_increment(prev),
    {
        proof {
            use_type_invariant(self);
        }
        let step = |inner: ScullDevInner| -> (out: (ScullDevInner, u64))
            ensures
                out.0.store == inner.store,
                out.0.counter == saturating_increment(inner.counter),
                out.1 == out.0.counter,
            {
                let c: u64 = if inner.counter == u64::MAX {
                    u64::MAX
                } else {
                    inner.counter + 1
                };
                (ScullDevInner { counter: c, store: inner.store }, c)
            };
        self.inner.with_lock(step)
    }

    /// The open count of some locked snapshot.
    pub fn open_count(&self) -> u64 {
        proof {
            use_type_invariant(self);
        }
        let step = |inner: ScullDevInner| -> (out: (ScullDevInner, u64))
            ensures
                out.0 == inner,
                out.1 == inner.counter,
            {
                let c = inner.counter;
                (inner, c)
            };
        self.inner.with_lock(step)
    }

    /// The content length of some locked snapshot.
    pub fn content_len(&self) -> usize {
        proof {
            use_type_invariant(self);
        }
        let step = |inner: ScullDevInner| -> (out: (ScullDevInner, usize))
            ensures
                out.0 == inner,
                out.1 == inner.store@.len(),
            {
                let n = inner.store.len();
                (inner, n)
            };
        self.inner.with_lock(step)
    }

    /// Read under the lock: the result is exactly a read of one locked
    /// snapshot of the contents, and never exceeds the requested `size`.
    pub fn read_locked(&self, offset: u64, size: usize) -> (r: Vec<u8>)
        ensures
            r@.len() <= size,
            exists|c: Seq<u8>| r@ == #[trigger] read_result(c, offset as int, size as int),
    {
        proof {
            use_type_invariant(self);
        }
        let step = |inner: ScullDevInner| -> (out: (ScullDevInner, Vec<u8>))
            ensures
                out.0 == inner,
                out.1@ == read_result(inner.store@, offset as int, size as int),
                out.1@.len() <= size,
            {
                let v = inner.store.read_at(offset, size);
                (inner, v)
            };
        self.inner.with_lock(step)
    }

    /// Write under the lock: one complete sparse write into one locked
    /// snapshot.  Success depends only on the arguments: the written range
    /// must end within a machine size.
    pub fn write_locked(&self, offset: u64, data: &[u8]) -> (r: Result<usize, Error>)
        ensures
            r is Ok <==> offset + data@.len() <= usize::MAX,
            r matches Ok(n) ==> n == data@.len(),
            r matches Err(e) ==> e == Error::InvalidArgument,
    {
        proof {
            use_type_invariant(self);
        }
        let step = |inner: ScullDevInner| -> (out: (ScullDevInner, Result<usize, Error>))
            ensures
                out.1 is Ok <==> offset + data@.len() <= usize::MAX,
                out.1 matches Ok(n) ==> n == data@.len() && out.0.counter == inner.counter
                    && out.0.store@ == write_result(inner.store@, offset as int, data@),
                out.1 matches Err(e) ==> e == Error::InvalidArgument && out.0 == inner,
            {
                let mut dev_state = inner;
                let res = dev_state.store.write_at(offset, data);
                (dev_state, res)
            };
        self.inner.with_lock(step)
    }
}

/// `v + 1`, stopping at the top of the range.
pub open spec fn saturating_increment(v: u64) -> u64 {
    if v == u64::MAX {
        u64::MAX
    } else {
        (v + 1) as u64
    }
}

/// The capability implementation backing a buffered pseudo-device entry.
/// Opens share the device; reads and writes go to the locked store.
pub struct RustFile;

impl ProcOperations for RustFile {
    type OpenData = Arc<ScullDev>;

    type Data = Arc<ScullDev>;

    fn proc_open(shared: &Arc<ScullDev>) -> (r: Result<Arc<ScullDev>, Error>) {
        let dev = share_arc(shared);
        dev.note_open();
        Ok(dev)
    }

    fn proc_read(data: &Arc<ScullDev>, offset: u64, size: usize) -> (r: Result<Vec<u8>, Error>) {
        Ok(data.read_locked(offset, size))
    }

    fn proc_write(data: &Arc<ScullDev>, offset: u64, buf: &[u8]) -> (r: Result<usize, Error>) {
        data.write_locked(offset, buf)
    }
}

/// The whole three-device setup is owed to succeed: the three names are
/// creatable at the root, pairwise distinct, and three handles are still
/// available.
pub open spec fn rust_scull_init_allowed(
    s: Seq<HostEntry>,
    n0: Seq<char>,
    n1: Seq<char>,
    n2: Seq<char>,
    fresh: u64,
) -> bool {
    &&& create_allowed(s, 0, n0)
    &&& create_allowed(s, 0, n1)
    &&& create_allowed(s, 0, n2)
    &&& n0 != n1
    &&& n0 != n2
    &&& n1 != n2
    &&& fresh < u64::MAX - 2
}

/// The error a failed three-device setup reports, by the first registration
/// that fails.
pub open spec fn rust_scull_init_error(
    s: Seq<HostEntry>,
    n0: Seq<char>,
    n1: Seq<char>,
    n2: Seq<char>,
    fresh: u64,
) -> Error {
    if !(create_allowed(s, 0, n0) && fresh < u64::MAX) {
        create_error(s, 0, n0)
    } else if n1.len() == 0 {
        Error::InvalidArgument
    } else if live_named(s, 0, n1) || n1 == n0 {
        Error::AlreadyExists
    } else if fresh + 1 >= u64::MAX {
        Error::OutOfMemory
    } else if n2.len() == 0 {
        Error::InvalidArgument
    } else if live_named(s, 0, n2) || n2 == n0 || n2 == n1 {
        Error::AlreadyExists
    } else {
        Error::OutOfMemory
    }
}

/// The module state of the three-device setup: each device with its own
/// registration at the root.
pub struct RustScull {
    dev0: Arc<ScullDev>,
    dev1: Arc<ScullDev>,
    dev2: Arc<ScullDev>,
    reg0: RustProcRegistration,
    reg1: RustProcRegistration,
    reg2: RustProcRegistration,
}

impl RustScull {
    /// The first entry's handle, while live.
    pub closed spec fn spec_entry0(self) -> Option<u64> {
        self.reg0.spec_entry()
    }

    /// The second entry's handle, while live.
    pub closed spec fn spec_entry1(self) -> Option<u64> {
        self.reg1.spec_entry()
    }

    /// The third entry's handle, while live.
    pub closed spec fn spec_entry2(self) -> Option<u64> {
        self.reg2.spec_entry()
    }

    /// The first device.
    pub closed spec fn spec_dev0(self) -> Arc<ScullDev> {
        self.dev0
    }

    /// The second device.
    pub closed spec fn spec_dev1(self) -> Arc<ScullDev> {
        self.dev1
    }

    /// The third device.
    pub closed spec fn spec_dev2(self) -> Arc<ScullDev> {
        self.dev2
    }

    /// Every handle this object owns is live in `ns`.
    pub open spec fn valid_in(self, ns: Seq<HostEntry>) -> bool {
        &&& (self.spec_entry0() matches Some(h) ==> has_handle(ns, h))
        &&& (self.spec_entry1() matches Some(h) ==> has_handle(ns, h))
        &&& (self.spec_entry2() matches Some(h) ==> has_handle(ns, h))
    }

    /// The owned handles are pairwise distinct.
    pub open spec fn handles_distinct(self) -> bool {
        &&& distinct_opt(self.spec_entry0(), self.spec_entry1())
        &&& distinct_opt(self.spec_entry0(), self.spec_entry2())
        &&& distinct_opt(self.spec_entry1(), self.spec_entry2())
    }

    /// The first device to borrow for opens.
    pub fn device0(&self) -> (r: &Arc<ScullDev>)
        ensures
            *r == self.spec_dev0(),
    {
        &self.dev0
    }

    /// The second device to borrow for opens.
    pub fn device1(&self) -> (r: &Arc<ScullDev>)
        ensures
            *r == self.spec_dev1(),
    {
        &self.dev1
    }

    /// The third device to borrow for opens.
    pub fn device2(&self) -> (r: &Arc<ScullDev>)
        ensures
            *r == self.spec_dev2(),
    {
        &self.dev2
    }

    /// Set the module up: create three devices and register each under its
    /// name at the root, all backed by [`RustFile`].  On any failure the
    /// registrations already made are torn down again, so the namespace is
    /// left exactly as it was.
    pub fn init(ns: &mut HostNamespace, name0: &str, name1: &str, name2: &str) -> (r: Result<
        RustScull,
        Error,
    >)
        requires
            old(ns).wf(),
        ensures
            final(ns).wf(),
            r is Ok <==> rust_scull_init_allowed(
                old(ns)@,
                name0@,
                name1@,
                name2@,
                old(ns).fresh_handle(),
            ),
            r matches Ok(s) ==> (live_named(final(ns)@, 0, name0@) && live_named(
                final(ns)@,
                0,
                name1@,
            ) && live_named(final(ns)@, 0, name2@) && s.valid_in(final(ns)@)
                && s.handles_distinct() && final(ns)@.len() == old(ns)@.len() + 3
                && s.spec_dev0().spec_name() == name0@ && s.spec_dev0().spec_number() == 0
                && s.spec_dev1().spec_name() == name1@ && s.spec_dev1().spec_number() == 1
                && s.spec_dev2().spec_name() == name2@ && s.spec_dev2().spec_number() == 2
                && (s.spec_entry0() matches Some(h) && entry_of(final(ns)@, h).table == Some(
                adapter_table(),
            ))),
            r matches Err(e) ==> final(ns)@ == old(ns)@ && e == rust_scull_init_error(
                old(ns)@,
                name0@,
                name1@,
                name2@,
                old(ns).fresh_handle(),
            ),
    {
        let ghost s0 = ns@;
        let dev0 = ScullDev::try_new(name0.to_owned(), 0);
        let dev1 = ScullDev::try_new(name1.to_owned(), 1);
        let dev2 = ScullDev::try_new(name2.to_owned(), 2);
        let mut reg0 = RustProcRegistration::new(0);
        match reg0.register::<RustFile>(ns, name0, None) {
            Ok(()) => {},
            Err(e) => {
                return Err(e);
            },
        }
        let ghost s1 = ns@;
        let ghost h0 = reg0.spec_entry()->0;
        let mut reg1 = RustProcRegistration::new(0);
        match reg1.register::<RustFile>(ns, name1, None) {
            Ok(()) => {},
            Err(e) => {
                proof {
                    assert(live_named(s1, 0, name1@) <==> live_named(s0, 0, name1@) || name1@
                        == name0@);
                }
                reg0.remove(ns);
                proof {
                    lemma_unwind_creation(s0, s1, ns@, 0, name0@, h0);
                }
                return Err(e);
            },
        }
        let ghost s2 = ns@;
        let ghost h1 = reg1.spec_entry()->0;
        let mut reg2 = RustProcRegistration::new(0);
        match reg2.register::<RustFile>(ns, name2, None) {
            Ok(()) => {},
            Err(e) => {
                proof {
                    assert(live_named(s2, 0, name2@) <==> live_named(s0, 0, name2@) || name2@
                        == name0@ || name2@ == name1@);
                }
                reg1.remove(ns);
                proof {
                    lemma_unwind_creation(s1, s2, ns@, 0, name1@, h1);
                }
                reg0.remove(ns);
                proof {
                    lemma_unwind_creation(s0, s1, ns@, 0, name0@, h0);
                }
                return Err(e);
            },
        }
        proof {
            let sf = ns@;
            let h2 = reg2.spec_entry()->0;
            assert(h1 != h0) by {
                assert(has_handle(s1, h0) && !has_handle(s1, h1));
            }
            assert(h2 != h0 && h2 != h1) by {
                assert(has_handle(s2, h0) && has_handle(s2, h1) && !has_handle(s2, h2));
            }
            assert(live_named(sf, 0, name0@)) by {
                assert(live_named(s1, 0, name0@));
            }
            assert(live_named(sf, 0, name1@)) by {
                assert(live_named(s2, 0, name1@));
            }
            assert(entry_of(sf, h0) == entry_of(s1, h0)) by {
                assert(entry_of(s2, h0) == entry_of(s1, h0));
            }
            assert(live_named(s1, 0, name1@) <==> live_named(s0, 0, name1@) || name1@ == name0@);
            assert(live_named(s2, 0, name2@) <==> live_named(s0, 0, name2@) || name2@ == name0@
                || name2@ == name1@);
        }
        Ok(RustScull { dev0, dev1, dev2, reg0, reg1, reg2 })
    }

    /// Tear the three registrations down.  Each removal is independently
    /// idempotent, so a repeated call is a no-op.
    pub fn shutdown(&mut self, ns: &mut HostNamespace)
        requires
            old(ns).wf(),
            old(self).valid_in(old(ns)@),
            old(self).handles_distinct(),
        ensures
            final(ns).wf(),
            final(self).spec_entry0() is None,
            final(self).spec_entry1() is None,
            final(self).spec_entry2() is None,
            old(self).spec_entry0() matches Some(h) ==> !has_handle(final(ns)@, h),
            old(self).spec_entry1() matches Some(h) ==> !has_handle(final(ns)@, h),
            old(self).spec_entry2() matches Some(h) ==> !has_handle(final(ns)@, h),
            forall|h2: u64|
                old(self).spec_entry0() != Some(h2) && old(self).spec_entry1() != Some(h2) && old(
                    self,
                ).spec_entry2() != Some(h2) ==> #[trigger] has_handle(final(ns)@, h2)
                    == has_handle(old(ns)@, h2),
    {
        self.reg0.remove(ns);
        self.reg1.remove(ns);
        self.reg2.remove(ns);
    }
}

} // verus!
