//! Owned lifecycle objects for entries in the host namespace.
//!
//! A [`RustProcRegistration`] owns at most one live entry; a
//! [`DirectoryHandle`] owns at most one live directory.  Both walk the state
//! machine *unregistered → registered → removed*: creation stores the
//! host-assigned handle, and removal hands it back to the host exactly once.
//! The host's own removal call is not idempotent — removing a dead handle is
//! undefined there — so idempotence lives here: a handle whose construction
//! failed, or whose entry was already removed, simply skips the host call.
//!
//! Directory and child removal reference the host by distinct handles and are
//! independently idempotent, so owning code may tear them down in any order.

use vstd::prelude::*;

use crate::adapter::CallbackAdapter;
use crate::adapter::adapter_table;
use crate::error::Error;
use crate::host::HostEntry;
use crate::host::HostNamespace;
use crate::host::create_allowed;
use crate::host::create_error;
use crate::host::created;
use crate::host::entry_of;
use crate::host::has_handle;
use crate::host::live_named;
use crate::host::parent_ok;
use crate::host::removed;
use crate::ops::ProcOperations;

verus! {

/// An owned, one-entry registration in the host namespace.
///
/// The object records the containing directory it registers under and, once
/// registration succeeds, the host-assigned entry handle.  The handle field
/// is the state machine: `None` before registration and after removal,
/// `Some` while the entry is live.
pub struct RustProcRegistration {
    dir: u64,
    entry: Option<u64>,
}

impl RustProcRegistration {
    /// The directory this registration creates its entry under.
    pub closed spec fn spec_dir(self) -> u64 {
        self.dir
    }

    /// The owned entry handle, while one is live.
    pub closed spec fn spec_entry(self) -> Option<u64> {
        self.entry
    }

    /// The handle this object owns, if any, is live in `ns`.  Callers carry
    /// this between lifecycle calls that touch the same namespace.
    pub open spec fn valid_in(self, ns: Seq<HostEntry>) -> bool {
        self.spec_entry() matches Some(h) ==> has_handle(ns, h)
    }

    /// A fresh, unregistered handle that will register under `dir`
    /// (`0` for the root).
    pub fn new(dir: u64) -> (s: Self)
        ensures
            s.spec_dir() == dir,
            s.spec_entry() is None,
    {
        RustProcRegistration { dir, entry: None }
    }

    /// Create a directory named `name` under `parent`, returning the raw
    /// host handle.  The caller-supplied parent is honoured.
    pub fn mkdir(ns: &mut HostNamespace, name: &str, parent: u64) -> (r: Result<u64, Error>)
        requires
            old(ns).wf(),
        ensures
            final(ns).wf(),
            r is Ok <==> create_allowed(old(ns)@, parent, name@) && old(ns).can_allocate(),
            r matches Ok(h) ==> created(old(ns)@, final(ns)@, parent, name@, h) && entry_of(
                final(ns)@,
                h,
            ).is_dir && (forall|n2: Seq<char>| !#[trigger] live_named(old(ns)@, h, n2))
                && h == old(ns).fresh_handle() && final(ns).fresh_handle() == h + 1,
            r matches Err(e) ==> *final(ns) == *old(ns) && e == create_error(old(ns)@, parent, name@),
    {
        ns.create_directory(name, parent)
    }

    /// Register an entry named `filename`, backed by the callback table of
    /// handler type `T` and carrying optional auxiliary `data`.
    ///
    /// Fails with [`Error::AlreadyExists`] when `filename` already resolves
    /// under this registration's directory; the namespace is untouched on
    /// every failure.
    pub fn register<T: ProcOperations>(
        &mut self,
        ns: &mut HostNamespace,
        filename: &str,
        data: Option<usize>,
    ) -> (r: Result<(), Error>)
        requires
            old(self).spec_entry() is None,
            old(ns).wf(),
        ensures
            final(ns).wf(),
            final(self).spec_dir() == old(self).spec_dir(),
            final(self).valid_in(final(ns)@),
            r is Ok <==> create_allowed(old(ns)@, old(self).spec_dir(), filename@) && old(
                ns,
            ).can_allocate(),
            r is Ok ==> (final(self).spec_entry() matches Some(h) && created(
                old(ns)@,
                final(ns)@,
                old(self).spec_dir(),
                filename@,
                h,
            ) && entry_of(final(ns)@, h).table == Some(adapter_table()) && entry_of(final(ns)@, h).data
                == data && !entry_of(final(ns)@, h).is_dir && h == old(ns).fresh_handle()
                && final(ns).fresh_handle() == h + 1 && (forall|n2: Seq<char>|
                !#[trigger] live_named(old(ns)@, h, n2))),
            r matches Err(e) ==> *final(self) == *old(self) && *final(ns) == *old(ns) && e
                == create_error(old(ns)@, old(self).spec_dir(), filename@),
    {
        let table = CallbackAdapter::<T>::build();
        match ns.create_entry(self.dir, filename, table, data) {
            Ok(h) => {
                self.entry = Some(h);
                Ok(())
            },
            Err(e) => Err(e),
        }
    }

    /// Remove the owned entry from the host namespace.
    ///
    /// Idempotent by construction: when no entry is owned — registration
    /// never succeeded, or removal already ran — no host call is made and
    /// the namespace is untouched.  After the call the object owns nothing,
    /// so a repeated call is a no-op.
    pub fn remove(&mut self, ns: &mut HostNamespace)
        requires
            old(ns).wf(),
            old(self).valid_in(old(ns)@),
        ensures
            final(ns).wf(),
            final(self).spec_dir() == old(self).spec_dir(),
            final(self).spec_entry() is None,
            old(self).spec_entry() is None ==> *final(ns) == *old(ns),
            old(self).spec_entry() matches Some(h) ==> removed(old(ns)@, final(ns)@, h),
    {
        match self.entry {
            Some(h) => {
                ns.remove_entry(h);
                self.entry = None;
            },
            None => {},
        }
    }
}

/// An owned container entry: a directory grouping child registrations.
///
/// Children are separate entries with their own handles and their own
/// idempotent removal; dropping the directory with zero children, or
/// removing children and directory in either order, is well-defined.
pub struct DirectoryHandle {
    dir: Option<u64>,
}

impl DirectoryHandle {
    /// The owned directory handle, while one is live.
    pub closed spec fn spec_dir(self) -> Option<u64> {
        self.dir
    }

    /// The handle this object owns, if any, is live in `ns`.
    pub open spec fn valid_in(self, ns: Seq<HostEntry>) -> bool {
        self.spec_dir() matches Some(h) ==> has_handle(ns, h)
    }

    /// Create a directory named `name` under `parent` and take ownership of
    /// it.  On failure no resource is created and no cleanup is owed.
    pub fn mkdir(ns: &mut HostNamespace, name: &str, parent: u64) -> (r: Result<
        DirectoryHandle,
        Error,
    >)
        requires
            old(ns).wf(),
        ensures
            final(ns).wf(),
            r is Ok <==> create_allowed(old(ns)@, parent, name@) && old(ns).can_allocate(),
            r matches Ok(d) ==> d.spec_dir() matches Some(h) && created(
                old(ns)@,
                final(ns)@,
                parent,
                name@,
                h,
            ) && entry_of(final(ns)@, h).is_dir && parent_ok(final(ns)@, h) && (forall|
                n2: Seq<char>,
            |
                !#[trigger] live_named(old(ns)@, h, n2)) && h == old(ns).fresh_handle()
                && final(ns).fresh_handle() == h + 1,
            r matches Err(e) ==> *final(ns) == *old(ns) && e == create_error(old(ns)@, parent, name@),
    {
        match ns.create_directory(name, parent) {
            Ok(h) => Ok(DirectoryHandle { dir: Some(h) }),
            Err(e) => Err(e),
        }
    }

    /// The raw handle of the owned directory, for registering children
    /// under it.
    pub fn raw(&self) -> (r: u64)
        requires
            self.spec_dir() is Some,
        ensures
            self.spec_dir() == Some(r),
    {
        match self.dir {
            Some(h) => h,
            None => {
                proof {
                    assert(false);
                }
                0
            },
        }
    }

    /// Remove the owned directory.  Idempotent in the same way as
    /// [`RustProcRegistration::remove`].
    pub fn remove(&mut self, ns: &mut HostNamespace)
        requires
            old(ns).wf(),
            old(self).valid_in(old(ns)@),
        ensures
            final(ns).wf(),
            final(self).spec_dir() is None,
            old(self).spec_dir() is None ==> *final(ns) == *old(ns),
            old(self).spec_dir() matches Some(h) ==> removed(old(ns)@, final(ns)@, h),
    {
        match self.dir {
            Some(h) => {
                ns.remove_entry(h);
                self.dir = None;
            },
            None => {},
        }
    }
}

/// Neither handle is live, or the two handles differ.
pub open spec fn distinct_opt(a: Option<u64>, b: Option<u64>) -> bool {
    !(a is Some && b is Some && a->0 == b->0)
}

/// After a successful creation of an entry named `name` under `parent`, a
/// second creation attempt with the same name under the same parent is owed
/// exactly [`Error::AlreadyExists`], while the first entry remains live (and
/// so remains removable).
pub proof fn lemma_second_register_same_name_fails(
    pre: Seq<HostEntry>,
    post: Seq<HostEntry>,
    parent: u64,
    name: Seq<char>,
    h: u64,
)
    requires
        created(pre, post, parent, name, h),
    ensures
        !create_allowed(post, parent, name),
        create_error(post, parent, name) == Error::AlreadyExists,
        has_handle(post, h),
{
    assert(parent_ok(post, parent)) by {
        if parent != 0 {
            assert(has_handle(pre, parent) && entry_of(pre, parent).is_dir);
            assert(parent != h) by {
                assert(!has_handle(pre, h));
            }
            assert(has_handle(post, parent));
            assert(entry_of(post, parent) == entry_of(pre, parent));
        }
    }
    assert(live_named(post, parent, name));
}

} // verus!
