//! A single-value text responder: an entry whose whole content is one
//! configured message, rendered once per open.
//!
//! The message and the auxiliary count are explicit configuration passed at
//! construction — not process-wide statics — so several independent entries
//! can coexist.  An open renders the message into a per-open buffer; reads
//! serve byte ranges of that buffer and seeks move within it.

use std::sync::Arc;
use vstd::prelude::*;

use crate::adapter::adapter_table;
use crate::error::Error;
use crate::host::HostEntry;
use crate::host::HostNamespace;
use crate::host::create_allowed;
use crate::host::create_error;
use crate::host::created;
use crate::host::entry_of;
use crate::host::has_handle;
use crate::host::lemma_unwind_creation;
use crate::host::live_named;
use crate::host::removed;
use crate::ops::ProcOperations;
use crate::ops::Whence;
use crate::ops::resolve_seek;
use crate::registration::DirectoryHandle;
use crate::registration::RustProcRegistration;
use crate::registration::distinct_opt;
use crate::store::BufferedStore;

verus! {

/// The shared context of one single-value entry: the text it serves, and the
/// auxiliary per-entry count carried as an owned, typed value.
pub struct ShowContext {
    message: Vec<u8>,
    count: usize,
}

impl ShowContext {
    /// The configured message.
    pub closed spec fn spec_message(self) -> Seq<u8> {
        self.message@
    }

    /// The configured auxiliary count.
    pub closed spec fn spec_count(self) -> usize {
        self.count
    }

    /// A context serving `message`, carrying `count`.
    pub fn new(message: Vec<u8>, count: usize) -> (s: Self)
        ensures
            s.spec_message() == message@,
            s.spec_count() == count,
    {
        ShowContext { message, count }
    }

    /// The configured auxiliary count.
    pub fn count(&self) -> (n: usize)
        ensures
            n == self.spec_count(),
    {
        self.count
    }
}

/// Render the show text for one open: exactly the configured message.
pub fn proc_show(ctx: &ShowContext) -> (v: Vec<u8>)
    ensures
        v@ == ctx.spec_message(),
{
    let mut out: Vec<u8> = Vec::new();
    let mut i: usize = 0;
    while i < ctx.message.len()
        invariant
            i <= ctx.message@.len(),
            out@ == ctx.message@.subrange(0, i as int),
        decreases ctx.message@.len() - i,
    {
        out.push(ctx.message[i]);
        i = i + 1;
    }
    assert(out@ == ctx.spec_message());
    out
}

/// The capability implementation backing a single-value entry: an open
/// renders the message once, reads serve byte ranges of it, seeks move
/// within it, and the entry is read-only.
pub struct Token;

impl ProcOperations for Token {
    type OpenData = Arc<ShowContext>;

    type Data = BufferedStore;

    fn proc_open(shared: &Arc<ShowContext>) -> (r: Result<BufferedStore, Error>) {
        let rendered = proc_show(&**shared);
        Ok(BufferedStore::from_vec(rendered))
    }

    fn proc_read(data: &BufferedStore, offset: u64, size: usize) -> (r: Result<Vec<u8>, Error>) {
        Ok(data.read_at(offset, size))
    }

    fn proc_write(data: &BufferedStore, offset: u64, buf: &[u8]) -> (r: Result<usize, Error>) {
        Err(Error::Unsupported)
    }

    fn proc_lseek(data: &BufferedStore, pos: u64, offset: i64, whence: Whence) -> (r: Result<
        u64,
        Error,
    >) {
        resolve_seek(data.len(), pos, offset, whence)
    }
}

/// The whole setup is owed to succeed: the directory can be created at the
/// root, both entry names are non-empty and differ, and three handles are
/// still available.
pub open spec fn rust_proc_init_allowed(
    s: Seq<HostEntry>,
    dirname: Seq<char>,
    show: Seq<char>,
    aux: Seq<char>,
    fresh: u64,
) -> bool {
    &&& create_allowed(s, 0, dirname)
    &&& show.len() > 0
    &&& aux.len() > 0
    &&& show != aux
    &&& fresh < u64::MAX - 2
}

/// The error a failed setup reports, by the first stage that fails: the
/// directory creation, the first entry, or the second entry.
pub open spec fn rust_proc_init_error(
    s: Seq<HostEntry>,
    dirname: Seq<char>,
    show: Seq<char>,
    aux: Seq<char>,
    fresh: u64,
) -> Error {
    if !(create_allowed(s, 0, dirname) && fresh < u64::MAX) {
        create_error(s, 0, dirname)
    } else if show.len() == 0 {
        Error::InvalidArgument
    } else if fresh + 1 >= u64::MAX {
        Error::OutOfMemory
    } else if aux.len() == 0 {
        Error::InvalidArgument
    } else if aux == show {
        Error::AlreadyExists
    } else {
        Error::OutOfMemory
    }
}

/// The module state of a basic single-value setup: one directory at the
/// root, holding one plain entry and one entry carrying auxiliary data.
pub struct RustProc {
    dir: DirectoryHandle,
    reg_show: RustProcRegistration,
    reg_aux: RustProcRegistration,
}

impl RustProc {
    /// The owned directory handle, while live.
    pub closed spec fn spec_dir(self) -> Option<u64> {
        self.dir.spec_dir()
    }

    /// The plain entry's handle, while live.
    pub closed spec fn spec_show_entry(self) -> Option<u64> {
        self.reg_show.spec_entry()
    }

    /// The data-carrying entry's handle, while live.
    pub closed spec fn spec_aux_entry(self) -> Option<u64> {
        self.reg_aux.spec_entry()
    }

    /// Every handle this object owns is live in `ns`.
    pub open spec fn valid_in(self, ns: Seq<HostEntry>) -> bool {
        &&& (self.spec_dir() matches Some(h) ==> has_handle(ns, h))
        &&& (self.spec_show_entry() matches Some(h) ==> has_handle(ns, h))
        &&& (self.spec_aux_entry() matches Some(h) ==> has_handle(ns, h))
    }

    /// The owned handles are pairwise distinct, so removing one leaves the
    /// others live.
    pub open spec fn handles_distinct(self) -> bool {
        &&& distinct_opt(self.spec_dir(), self.spec_show_entry())
        &&& distinct_opt(self.spec_dir(), self.spec_aux_entry())
        &&& distinct_opt(self.spec_show_entry(), self.spec_aux_entry())
    }

    /// Set the module up: create the directory `dirname` at the root, then
    /// register the entry `show_name` and the entry `aux_name` (carrying
    /// `aux`) inside it, both backed by [`Token`].
    ///
    /// On any failure the stages already performed are torn down again, so
    /// the namespace is left exactly as it was.
    pub fn init(
        ns: &mut HostNamespace,
        dirname: &str,
        show_name: &str,
        aux_name: &str,
        aux: usize,
    ) -> (r: Result<RustProc, Error>)
        requires
            old(ns).wf(),
        ensures
            final(ns).wf(),
            r is Ok <==> rust_proc_init_allowed(
                old(ns)@,
                dirname@,
                show_name@,
                aux_name@,
                old(ns).fresh_handle(),
            ),
            r matches Ok(p) ==> (p.spec_dir() matches Some(d) && has_handle(final(ns)@, d)
                && entry_of(final(ns)@, d).is_dir && entry_of(final(ns)@, d).parent == 0
                && entry_of(final(ns)@, d).name@ == dirname@
                && live_named(final(ns)@, 0, dirname@)
                && live_named(final(ns)@, d, show_name@)
                && live_named(final(ns)@, d, aux_name@)
                && (p.spec_show_entry() matches Some(hs) && entry_of(final(ns)@, hs).parent == d
                    && entry_of(final(ns)@, hs).name@ == show_name@
                    && entry_of(final(ns)@, hs).table == Some(adapter_table())
                    && entry_of(final(ns)@, hs).data is None)
                && (p.spec_aux_entry() matches Some(ha) && entry_of(final(ns)@, ha).parent == d
                    && entry_of(final(ns)@, ha).name@ == aux_name@
                    && entry_of(final(ns)@, ha).table == Some(adapter_table())
                    && entry_of(final(ns)@, ha).data == Some(aux))
                && p.valid_in(final(ns)@) && p.handles_distinct()
                && final(ns)@.len() == old(ns)@.len() + 3),
            r matches Err(e) ==> final(ns)@ == old(ns)@ && e == rust_proc_init_error(
                old(ns)@,
                dirname@,
                show_name@,
                aux_name@,
                old(ns).fresh_handle(),
            ),
    {
        let ghost s0 = ns@;
        let mut dir = match DirectoryHandle::mkdir(ns, dirname, 0) {
            Ok(d) => d,
            Err(e) => {
                return Err(e);
            },
        };
        let ghost s1 = ns@;
        let ghost d_gh = dir.spec_dir()->0;
        let dh = dir.raw();
        let mut reg_show = RustProcRegistration::new(dh);
        match reg_show.register::<Token>(ns, show_name, None) {
            Ok(()) => {},
            Err(e) => {
                proof {
                    assert(crate::host::parent_ok(s1, d_gh));
                    assert(!live_named(s1, d_gh, show_name@));
                }
                dir.remove(ns);
                proof {
                    lemma_unwind_creation(s0, s1, ns@, 0, dirname@, d_gh);
                }
                return Err(e);
            },
        }
        let ghost s2 = ns@;
        let ghost hs_gh = reg_show.spec_entry()->0;
        let mut reg_aux = RustProcRegistration::new(dh);
        match reg_aux.register::<Token>(ns, aux_name, Some(aux)) {
            Ok(()) => {},
            Err(e) => {
                proof {
                    assert(hs_gh != d_gh) by {
                        assert(has_handle(s1, d_gh) && !has_handle(s1, hs_gh));
                    }
                    assert(crate::host::parent_ok(s2, d_gh)) by {
                        assert(has_handle(s2, d_gh) && entry_of(s2, d_gh) == entry_of(s1, d_gh));
                    }
                    assert(!live_named(s1, d_gh, aux_name@));
                    assert(live_named(s2, d_gh, aux_name@) <==> aux_name@ == show_name@);
                }
                reg_show.remove(ns);
                proof {
                    lemma_unwind_creation(s1, s2, ns@, d_gh, show_name@, hs_gh);
                }
                dir.remove(ns);
                proof {
                    lemma_unwind_creation(s0, s1, ns@, 0, dirname@, d_gh);
                }
                return Err(e);
            },
        }
        proof {
            let sf = ns@;
            let ha_gh = reg_aux.spec_entry()->0;
            assert(hs_gh != d_gh) by {
                assert(has_handle(s1, d_gh) && !has_handle(s1, hs_gh));
            }
            assert(ha_gh != d_gh && ha_gh != hs_gh) by {
                assert(has_handle(s2, d_gh) && has_handle(s2, hs_gh) && !has_handle(s2, ha_gh));
            }
            assert(entry_of(sf, d_gh) == entry_of(s1, d_gh)) by {
                assert(entry_of(s2, d_gh) == entry_of(s1, d_gh));
            }
            assert(entry_of(sf, hs_gh) == entry_of(s2, hs_gh));
            assert(!live_named(s1, d_gh, aux_name@));
            assert(!live_named(s2, d_gh, aux_name@) ==> aux_name@ != show_name@);
            assert(live_named(sf, 0, dirname@)) by {
                assert(live_named(s1, 0, dirname@));
            }
            assert(live_named(sf, d_gh, show_name@)) by {
                assert(live_named(s2, d_gh, show_name@));
            }
        }
        Ok(RustProc { dir, reg_show, reg_aux })
    }

    /// Tear the whole setup down: children first, then the directory.  Each
    /// removal is independently idempotent, so a repeated call is a no-op.
    pub fn shutdown(&mut self, ns: &mut HostNamespace)
        requires
            old(ns).wf(),
            old(self).valid_in(old(ns)@),
            old(self).handles_distinct(),
        ensures
            final(ns).wf(),
            final(self).spec_dir() is None,
            final(self).spec_show_entry() is None,
            final(self).spec_aux_entry() is None,
            old(self).spec_dir() matches Some(h) ==> !has_handle(final(ns)@, h),
            old(self).spec_show_entry() matches Some(h) ==> !has_handle(final(ns)@, h),
            old(self).spec_aux_entry() matches Some(h) ==> !has_handle(final(ns)@, h),
            forall|h2: u64|
                old(self).spec_dir() != Some(h2) && old(self).spec_show_entry() != Some(h2) && old(
                    self,
                ).spec_aux_entry() != Some(h2) ==> #[trigger] has_handle(final(ns)@, h2)
                    == has_handle(old(ns)@, h2),
    {
        self.reg_show.remove(ns);
        self.reg_aux.remove(ns);
        self.dir.remove(ns);
    }
}

} // verus!
