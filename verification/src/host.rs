//! An explicit model of the host environment's namespace: the table of live
//! virtual entries that registration calls create and remove.
//!
//! The host side of the registration interface is a flat table of entries,
//! each identified by an opaque non-zero handle, holding its containing
//! directory, its name, and — for non-directories — the callback table that
//! backs it.  Two rules of that interface are load-bearing for every caller
//! and are therefore stated here as machine-checked contracts:
//!
//! * creation fails with [`Error::AlreadyExists`] when the name already
//!   resolves to a live entry under the same parent, and succeeds otherwise
//!   (for a well-formed name and parent), and
//! * removal is **not** idempotent: removing a handle that is not live is
//!   undefined at the host interface, so [`HostNamespace::remove_entry`]
//!   demands a live handle from its caller.  The idempotent teardown objects
//!   in [`crate::registration`] are verified to uphold this.

use vstd::prelude::*;

use crate::adapter::CallbackTable;
use crate::error::Error;

verus! {

/// One live entry in the host namespace.
pub struct HostEntry {
    /// The host-assigned identity of the entry; opaque, non-zero.
    pub handle: u64,
    /// Handle of the containing directory; `0` stands for the root.
    pub parent: u64,
    /// Name of the entry within its directory.
    pub name: String,
    /// Whether the entry is a directory (a container for further entries).
    pub is_dir: bool,
    /// The callback table backing a non-directory entry.
    pub table: Option<CallbackTable>,
    /// Auxiliary per-entry payload, carried as an owned, typed value.
    pub data: Option<usize>,
}

/// There is a live entry named `name` under `parent`.
pub open spec fn live_named(s: Seq<HostEntry>, parent: u64, name: Seq<char>) -> bool {
    exists|i: int| 0 <= i < s.len() && s[i].parent == parent && s[i].name@ == name
}

/// There is a live entry with handle `h`.
pub open spec fn has_handle(s: Seq<HostEntry>, h: u64) -> bool {
    exists|i: int| 0 <= i < s.len() && s[i].handle == h
}

/// The position of the (unique, when the table is distinct) entry with
/// handle `h`.
pub open spec fn index_of_handle(s: Seq<HostEntry>, h: u64) -> int {
    choose|i: int| 0 <= i < s.len() && s[i].handle == h
}

/// The entry with handle `h`.
pub open spec fn entry_of(s: Seq<HostEntry>, h: u64) -> HostEntry {
    s[index_of_handle(s, h)]
}

/// `parent` may contain entries: it is the root, or a live directory.
pub open spec fn parent_ok(s: Seq<HostEntry>, parent: u64) -> bool {
    parent == 0 || (has_handle(s, parent) && entry_of(s, parent).is_dir)
}

/// No two live entries share a handle, and no two share a name under the
/// same parent.
pub open spec fn distinct_entries(s: Seq<HostEntry>) -> bool {
    forall|i: int, j: int|
        0 <= i < j < s.len() ==> #[trigger] s[i].handle != #[trigger] s[j].handle && !(
        s[i].parent == s[j].parent && s[i].name@ == s[j].name@)
}

/// Creation of an entry named `name` under `parent` is owed to succeed: the
/// name is non-empty, the parent is a live directory or the root, and the
/// name is free.
pub open spec fn create_allowed(s: Seq<HostEntry>, parent: u64, name: Seq<char>) -> bool {
    name.len() > 0 && parent_ok(s, parent) && !live_named(s, parent, name)
}

/// The host namespace: the set of live entries, plus the allocator for fresh
/// handles.  Its abstract value (`view`) is the sequence of live entries in
/// creation order.
pub struct HostNamespace {
    entries: Vec<HostEntry>,
    next_handle: u64,
}

impl View for HostNamespace {
    type V = Seq<HostEntry>;

    closed spec fn view(&self) -> Seq<HostEntry> {
        self.entries@
    }
}

impl HostNamespace {
    /// The handle the next successful creation will return.
    pub closed spec fn fresh_handle(self) -> u64 {
        self.next_handle
    }

    /// Handles are still available; exhaustion surfaces as
    /// [`Error::OutOfMemory`].
    pub open spec fn can_allocate(self) -> bool {
        self.fresh_handle() < u64::MAX
    }

    /// The namespace invariant: entries are distinct (by handle, and by name
    /// within a parent) and every live handle is non-zero and below the
    /// allocator mark.
    pub closed spec fn wf(self) -> bool {
        &&& distinct_entries(self@)
        &&& self.next_handle >= 1
        &&& forall|i: int|
            0 <= i < self@.len() ==> 0 < #[trigger] self@[i].handle < self.next_handle
        &&& forall|i: int| 0 <= i < self@.len() ==> #[trigger] self@[i].parent < self.next_handle
    }

    /// An empty namespace.
    pub fn new() -> (s: Self)
        ensures
            s.wf(),
            s@.len() == 0,
            s.fresh_handle() == 1,
    {
        HostNamespace { entries: Vec::new(), next_handle: 1 }
    }

    /// Number of live entries.
    pub fn entry_count(&self) -> (n: usize)
        ensures
            n == self@.len(),
    {
        self.entries.len()
    }

    /// Position of the live entry with handle `h`, if any.
    fn find_handle(&self, h: u64) -> (r: Option<usize>)
        ensures
            match r {
                Some(i) => i < self@.len() && self@[i as int].handle == h,
                None => !has_handle(self@, h),
            },
    {
        let mut i: usize = 0;
        while i < self.entries.len()
            invariant
                i <= self@.len(),
                forall|j: int| 0 <= j < i ==> #[trigger] self@[j].handle != h,
            decreases self@.len() - i,
        {
            if self.entries[i].handle == h {
                return Some(i);
            }
            i = i + 1;
        }
        None
    }

    /// Whether a live entry with handle `h` exists.
    pub fn contains_handle(&self, h: u64) -> (r: bool)
        ensures
            r == has_handle(self@, h),
    {
        self.find_handle(h).is_some()
    }

    /// Whether a live entry named `name` exists under `parent`.
    pub fn contains_name(&self, parent: u64, name: &str) -> (r: bool)
        ensures
            r == live_named(self@, parent, name@),
    {
        let owned: String = name.to_owned();
        let mut i: usize = 0;
        while i < self.entries.len()
            invariant
                i <= self@.len(),
                owned@ == name@,
                forall|j: int|
                    0 <= j < i ==> !(#[trigger] self@[j].parent == parent && self@[j].name@
                        == name@),
            decreases self@.len() - i,
        {
            if self.entries[i].parent == parent && self.entries[i].name == owned {
                return true;
            }
            i = i + 1;
        }
        false
    }

    /// A copy-free look at the live entry with handle `h`.
    pub fn entry(&self, h: u64) -> (r: Option<&HostEntry>)
        requires
            self.wf(),
        ensures
            match r {
                Some(e) => has_handle(self@, h) && *e == entry_of(self@, h),
                None => !has_handle(self@, h),
            },
    {
        match self.find_handle(h) {
            Some(i) => {
                proof {
                    lemma_handle_index_unique(self@, h, i as int);
                }
                Some(&self.entries[i])
            },
            None => None,
        }
    }

    /// Create a non-directory entry backed by `table`, carrying optional
    /// auxiliary `data`.
    pub fn create_entry(&mut self, parent: u64, name: &str, table: CallbackTable, data: Option<
        usize,
    >) -> (r: Result<u64, Error>)
        requires
            old(self).wf(),
        ensures
            final(self).wf(),
            r is Ok <==> create_allowed(old(self)@, parent, name@) && old(self).can_allocate(),
            r matches Ok(h) ==> created(old(self)@, final(self)@, parent, name@, h)
                && entry_of(final(self)@, h).is_dir == false
                && entry_of(final(self)@, h).table == Some(table)
                && entry_of(final(self)@, h).data == data
                && h == old(self).fresh_handle()
                && final(self).fresh_handle() == h + 1
                && (forall|n2: Seq<char>| !#[trigger] live_named(old(self)@, h, n2)),
            r matches Err(e) ==> *final(self) == *old(self) && e == create_error(old(self)@, parent, name@),
    {
        self.insert_entry(name, parent, false, Some(table), data)
    }

    /// Create a directory entry, honouring the caller-supplied parent.
    pub fn create_directory(&mut self, name: &str, parent: u64) -> (r: Result<u64, Error>)
        requires
            old(self).wf(),
        ensures
            final(self).wf(),
            r is Ok <==> create_allowed(old(self)@, parent, name@) && old(self).can_allocate(),
            r matches Ok(h) ==> created(old(self)@, final(self)@, parent, name@, h)
                && entry_of(final(self)@, h).is_dir == true
                && entry_of(final(self)@, h).table is None
                && entry_of(final(self)@, h).data is None
                && h == old(self).fresh_handle()
                && final(self).fresh_handle() == h + 1
                && (forall|n2: Seq<char>| !#[trigger] live_named(old(self)@, h, n2)),
            r matches Err(e) ==> *final(self) == *old(self) && e == create_error(old(self)@, parent, name@),
    {
        self.insert_entry(name, parent, true, None, None)
    }

    /// Remove the live entry with handle `h`.  The host interface is not
    /// idempotent: the caller must prove the handle is live.
    pub fn remove_entry(&mut self, h: u64)
        requires
            old(self).wf(),
            has_handle(old(self)@, h),
        ensures
            final(self).wf(),
            removed(old(self)@, final(self)@, h),
            final(self).fresh_handle() == old(self).fresh_handle(),
    {
        let i = match self.find_handle(h) {
            Some(i) => i,
            None => {
                proof {
                    assert(false);
                }
                0
            },
        };
        proof {
            lemma_handle_index_unique(self@, h, i as int);
            lemma_remove_effects(self@, h);
        }
        self.entries.remove(i);
    }

    /// Shared body of entry and directory creation.
    fn insert_entry(
        &mut self,
        name: &str,
        parent: u64,
        is_dir: bool,
        table: Option<CallbackTable>,
        data: Option<usize>,
    ) -> (r: Result<u64, Error>)
        requires
            old(self).wf(),
        ensures
            final(self).wf(),
            r is Ok <==> create_allowed(old(self)@, parent, name@) && old(self).can_allocate(),
            r matches Ok(h) ==> created(old(self)@, final(self)@, parent, name@, h)
                && entry_of(final(self)@, h).is_dir == is_dir
                && entry_of(final(self)@, h).table == table
                && entry_of(final(self)@, h).data == data
                && h == old(self).fresh_handle()
                && final(self).fresh_handle() == h + 1
                && (forall|n2: Seq<char>| !#[trigger] live_named(old(self)@, h, n2)),
            r matches Err(e) ==> *final(self) == *old(self) && e == create_error(old(self)@, parent, name@),
    {
        if name.is_empty() {
            return Err(Error::InvalidArgument);
        }
        if parent != 0 {
            match self.entry(parent) {
                Some(e) => {
                    if !e.is_dir {
                        return Err(Error::NotFound);
                    }
                },
                None => {
                    return Err(Error::NotFound);
                },
            }
        }
        if self.contains_name(parent, name) {
            return Err(Error::AlreadyExists);
        }
        if self.next_handle == u64::MAX {
            return Err(Error::OutOfMemory);
        }
        let h = self.next_handle;
        let entry = HostEntry { handle: h, parent, name: name.to_owned(), is_dir, table, data };
        proof {
            lemma_push_effects(self@, entry);
            assert forall|n2: Seq<char>| !#[trigger] live_named(old(self)@, h, n2) by {
                if live_named(old(self)@, h, n2) {
                    let i = choose|i: int|
                        0 <= i < old(self)@.len() && old(self)@[i].parent == h && old(
                            self,
                        )@[i].name@ == n2;
                    assert(old(self)@[i].parent < h);
                }
            }
        }
        self.entries.push(entry);
        self.next_handle = h + 1;
        Ok(h)
    }
}

/// The error a creation attempt is owed, given the prior state of the table.
pub open spec fn create_error(s: Seq<HostEntry>, parent: u64, name: Seq<char>) -> Error {
    if name.len() == 0 {
        Error::InvalidArgument
    } else if !parent_ok(s, parent) {
        Error::NotFound
    } else if live_named(s, parent, name) {
        Error::AlreadyExists
    } else {
        Error::OutOfMemory
    }
}

/// Relation between the table before and after a successful creation of a
/// fresh entry `h` named `name` under `parent`: the new entry is appended,
/// everything else is untouched.
pub open spec fn created(
    pre: Seq<HostEntry>,
    post: Seq<HostEntry>,
    parent: u64,
    name: Seq<char>,
    h: u64,
) -> bool {
    &&& create_allowed(pre, parent, name)
    &&& h != 0 && !has_handle(pre, h)
    &&& post.len() == pre.len() + 1
    &&& post.subrange(0, pre.len() as int) == pre
    &&& post.last().handle == h
    &&& post.last().parent == parent
    &&& post.last().name@ == name
    &&& has_handle(post, h)
    &&& entry_of(post, h) == post.last()
    &&& live_named(post, parent, name)
    &&& forall|h2: u64|
        h2 != h ==> #[trigger] has_handle(post, h2) == has_handle(pre, h2)
    &&& forall|h2: u64|
        h2 != h && has_handle(pre, h2) ==> #[trigger] entry_of(post, h2) == entry_of(pre, h2)
    &&& forall|p: u64, n: Seq<char>|
        #[trigger] live_named(post, p, n) <==> live_named(pre, p, n) || (p == parent && n == name)
}

/// Relation between the table before and after removal of the (unique) live
/// entry with handle `h`: that entry is gone, everything else is untouched.
pub open spec fn removed(pre: Seq<HostEntry>, post: Seq<HostEntry>, h: u64) -> bool {
    &&& has_handle(pre, h)
    &&& post == pre.remove(index_of_handle(pre, h))
    &&& post.len() == pre.len() - 1
    &&& distinct_entries(post)
    &&& !has_handle(post, h)
    &&& !live_named(post, entry_of(pre, h).parent, entry_of(pre, h).name@)
    &&& forall|h2: u64| h2 != h ==> #[trigger] has_handle(post, h2) == has_handle(pre, h2)
    &&& forall|h2: u64|
        h2 != h && has_handle(pre, h2) ==> #[trigger] entry_of(post, h2) == entry_of(pre, h2)
    &&& forall|p: u64, n: Seq<char>| #[trigger] live_named(post, p, n) ==> live_named(pre, p, n)
    &&& forall|p: u64, n: Seq<char>|
        live_named(pre, p, n) && !(p == entry_of(pre, h).parent && n == entry_of(pre, h).name@)
            ==> #[trigger] live_named(post, p, n)
}

/// Removals of two distinct live entries commute: whichever of the two is
/// removed first, the table ends up the same.  This is what lets owning code
/// tear down a directory and its children in either order.
pub proof fn lemma_remove_order_irrelevant(
    s: Seq<HostEntry>,
    a: u64,
    b: u64,
    s1: Seq<HostEntry>,
    s2: Seq<HostEntry>,
    t1: Seq<HostEntry>,
    t2: Seq<HostEntry>,
)
    requires
        distinct_entries(s),
        a != b,
        removed(s, s1, a),
        removed(s1, s2, b),
        removed(s, t1, b),
        removed(t1, t2, a),
    ensures
        s2 == t2,
{
    let i = index_of_handle(s, a);
    let j = index_of_handle(s, b);
    assert(0 <= i < s.len() && s[i].handle == a);
    assert(0 <= j < s.len() && s[j].handle == b);
    assert(i != j);
    assert(forall|k: int| 0 <= k < i ==> s1[k] == s[k]);
    assert(forall|k: int| i <= k < s1.len() ==> s1[k] == s[k + 1]);
    assert(forall|k: int| 0 <= k < j ==> t1[k] == s[k]);
    assert(forall|k: int| j <= k < t1.len() ==> t1[k] == s[k + 1]);
    if j < i {
        assert(s1[j].handle == b);
        lemma_handle_index_unique(s1, b, j);
        assert(t1[i - 1].handle == a);
        lemma_handle_index_unique(t1, a, i - 1);
        assert(s2 =~= t2) by {
            assert(forall|k: int| 0 <= k < j ==> s2[k] == s1[k] && t2[k] == t1[k]);
            assert(forall|k: int| j <= k < s2.len() ==> s2[k] == s1[k + 1]);
            assert(forall|k: int| 0 <= k < i - 1 ==> t2[k] == t1[k]);
            assert(forall|k: int| i - 1 <= k < t2.len() ==> t2[k] == t1[k + 1]);
            assert forall|k: int| 0 <= k < s2.len() implies s2[k] == t2[k] by {
                if k < j {
                } else if k < i - 1 {
                    assert(s2[k] == s1[k + 1] && s1[k + 1] == s[k + 1]);
                    assert(t2[k] == t1[k] && t1[k] == s[k + 1]);
                } else {
                    assert(s2[k] == s1[k + 1] && s1[k + 1] == s[k + 2]);
                    assert(t2[k] == t1[k + 1] && t1[k + 1] == s[k + 2]);
                }
            }
        }
    } else {
        assert(s1[j - 1].handle == b);
        lemma_handle_index_unique(s1, b, j - 1);
        assert(t1[i].handle == a);
        lemma_handle_index_unique(t1, a, i);
        assert(s2 =~= t2) by {
            assert(forall|k: int| 0 <= k < j - 1 ==> s2[k] == s1[k]);
            assert(forall|k: int| j - 1 <= k < s2.len() ==> s2[k] == s1[k + 1]);
            assert(forall|k: int| 0 <= k < i ==> t2[k] == t1[k]);
            assert(forall|k: int| i <= k < t2.len() ==> t2[k] == t1[k + 1]);
            assert forall|k: int| 0 <= k < s2.len() implies s2[k] == t2[k] by {
                if k < i {
                } else if k < j - 1 {
                    assert(s2[k] == s1[k] && s1[k] == s[k + 1]);
                    assert(t2[k] == t1[k + 1] && t1[k + 1] == s[k + 1]);
                } else {
                    assert(s2[k] == s1[k + 1] && s1[k + 1] == s[k + 2]);
                    assert(t2[k] == t1[k + 1] && t1[k + 1] == s[k + 2]);
                }
            }
        }
    }
}

/// Removing an entry right after creating it restores the table exactly:
/// the creation appended the entry, so its removal takes the last element
/// off again.
pub proof fn lemma_unwind_creation(
    pre: Seq<HostEntry>,
    mid: Seq<HostEntry>,
    post: Seq<HostEntry>,
    parent: u64,
    name: Seq<char>,
    h: u64,
)
    requires
        created(pre, mid, parent, name, h),
        removed(mid, post, h),
    ensures
        post == pre,
{
    let k = index_of_handle(mid, h);
    assert(0 <= k < mid.len() && mid[k].handle == h);
    if k < pre.len() {
        assert(pre[k] == mid.subrange(0, pre.len() as int)[k]);
        assert(has_handle(pre, h));
        assert(false);
    }
    assert(k == pre.len());
    assert(post =~= pre) by {
        assert(forall|i: int|
            0 <= i < pre.len() ==> post[i] == mid[i] && mid[i] == #[trigger] mid.subrange(
                0,
                pre.len() as int,
            )[i]);
    }
}

/// In a distinct table, any index holding handle `h` is the index
/// [`index_of_handle`] picks.
proof fn lemma_handle_index_unique(s: Seq<HostEntry>, h: u64, i: int)
    requires
        distinct_entries(s),
        0 <= i < s.len(),
        s[i].handle == h,
    ensures
        index_of_handle(s, h) == i,
        entry_of(s, h) == s[i],
{
    assert(has_handle(s, h));
    let j = index_of_handle(s, h);
    assert(0 <= j < s.len() && s[j].handle == h);
    if i < j {
        assert(s[i].handle != s[j].handle);
    } else if j < i {
        assert(s[j].handle != s[i].handle);
    }
}

/// Effects of appending a fresh, uniquely named entry.
proof fn lemma_push_effects(s: Seq<HostEntry>, e: HostEntry)
    requires
        distinct_entries(s),
        !has_handle(s, e.handle),
        !live_named(s, e.parent, e.name@),
    ensures
        distinct_entries(s.push(e)),
        has_handle(s.push(e), e.handle),
        entry_of(s.push(e), e.handle) == e,
        live_named(s.push(e), e.parent, e.name@),
        s.push(e).subrange(0, s.len() as int) == s,
        forall|h2: u64|
            h2 != e.handle ==> #[trigger] has_handle(s.push(e), h2) == has_handle(s, h2),
        forall|h2: u64|
            h2 != e.handle && has_handle(s, h2) ==> #[trigger] entry_of(s.push(e), h2) == entry_of(
                s, h2),
        forall|p: u64, n: Seq<char>|
            #[trigger] live_named(s.push(e), p, n) <==> live_named(s, p, n) || (p == e.parent && n
                == e.name@),
{
    let s2 = s.push(e);
    assert(s2[s.len() as int] == e);
    assert(forall|i: int| 0 <= i < s.len() ==> s2[i] == s[i]);
    assert(s2.subrange(0, s.len() as int) =~= s);
    assert(distinct_entries(s2)) by {
        assert forall|i: int, j: int| 0 <= i < j < s2.len() implies s2[i].handle != s2[j].handle
            && !(s2[i].parent == s2[j].parent && s2[i].name@ == s2[j].name@) by {
            if j < s.len() {
            } else {
                assert(s2[j] == e);
                if s2[i].handle == e.handle {
                    assert(has_handle(s, e.handle));
                }
                if s2[i].parent == e.parent && s2[i].name@ == e.name@ {
                    assert(live_named(s, e.parent, e.name@));
                }
            }
        }
    }
    assert(has_handle(s2, e.handle)) by {
        assert(s2[s.len() as int].handle == e.handle);
    }
    lemma_handle_index_unique(s2, e.handle, s.len() as int);
    assert forall|h2: u64| h2 != e.handle implies #[trigger] has_handle(s2, h2) == has_handle(
        s, h2) by {
        if has_handle(s, h2) {
            let i = index_of_handle(s, h2);
            assert(s2[i].handle == h2);
        }
        if has_handle(s2, h2) {
            let i = index_of_handle(s2, h2);
            assert(i < s.len());
            assert(s[i].handle == h2);
        }
    }
    assert forall|h2: u64| h2 != e.handle && has_handle(s, h2) implies #[trigger] entry_of(
        s2, h2) == entry_of(s, h2) by {
        let i = index_of_handle(s, h2);
        assert(0 <= i < s.len() && s[i].handle == h2);
        assert(s2[i].handle == h2);
        lemma_handle_index_unique(s2, h2, i);
    }
    assert(live_named(s2, e.parent, e.name@)) by {
        assert(s2[s.len() as int].parent == e.parent && s2[s.len() as int].name@ == e.name@);
    }
    assert forall|p: u64, n: Seq<char>| #[trigger]
        live_named(s2, p, n) <==> live_named(s, p, n) || (p == e.parent && n == e.name@) by {
        if live_named(s2, p, n) {
            let i = choose|i: int| 0 <= i < s2.len() && s2[i].parent == p && s2[i].name@ == n;
            if i < s.len() {
                assert(s[i].parent == p && s[i].name@ == n);
                assert(live_named(s, p, n));
            } else {
                assert(s2[i] == e);
            }
        }
        if live_named(s, p, n) {
            let i = choose|i: int| 0 <= i < s.len() && s[i].parent == p && s[i].name@ == n;
            assert(s2[i].parent == p && s2[i].name@ == n);
            assert(live_named(s2, p, n));
        }
        if p == e.parent && n == e.name@ {
            assert(s2[s.len() as int].parent == p && s2[s.len() as int].name@ == n);
            assert(live_named(s2, p, n));
        }
    }
}

/// Effects of removing the (unique) entry with handle `h`.
proof fn lemma_remove_effects(s: Seq<HostEntry>, h: u64)
    requires
        distinct_entries(s),
        has_handle(s, h),
    ensures
        distinct_entries(s.remove(index_of_handle(s, h))),
        !has_handle(s.remove(index_of_handle(s, h)), h),
        !live_named(s.remove(index_of_handle(s, h)), entry_of(s, h).parent, entry_of(s, h).name@),
        forall|h2: u64|
            h2 != h ==> #[trigger] has_handle(s.remove(index_of_handle(s, h)), h2) == has_handle(
                s, h2),
        forall|h2: u64|
            h2 != h && has_handle(s, h2) ==> #[trigger] entry_of(
                s.remove(index_of_handle(s, h)), h2) == entry_of(s, h2),
        forall|p: u64, n: Seq<char>|
            #[trigger] live_named(s.remove(index_of_handle(s, h)), p, n) ==> live_named(s, p, n),
        forall|p: u64, n: Seq<char>|
            live_named(s, p, n) && !(p == entry_of(s, h).parent && n == entry_of(s, h).name@)
                ==> #[trigger] live_named(s.remove(index_of_handle(s, h)), p, n),
{
    let k = index_of_handle(s, h);
    assert(0 <= k < s.len() && s[k].handle == h);
    let s2 = s.remove(k);
    assert(forall|i: int| 0 <= i < k ==> s2[i] == s[i]);
    assert(forall|i: int| k <= i < s2.len() ==> s2[i] == s[i + 1]);
    assert(distinct_entries(s2)) by {
        assert forall|i: int, j: int| 0 <= i < j < s2.len() implies s2[i].handle != s2[j].handle
            && !(s2[i].parent == s2[j].parent && s2[i].name@ == s2[j].name@) by {
            let i0 = if i < k { i } else { i + 1 };
            let j0 = if j < k { j } else { j + 1 };
            assert(s2[i] == s[i0] && s2[j] == s[j0]);
            assert(0 <= i0 < j0 < s.len());
        }
    }
    assert(!has_handle(s2, h)) by {
        if has_handle(s2, h) {
            let i = index_of_handle(s2, h);
            let i0 = if i < k { i } else { i + 1 };
            assert(s2[i] == s[i0]);
            assert(i0 != k);
            if i0 < k {
                assert(s[i0].handle != s[k].handle);
            } else {
                assert(s[k].handle != s[i0].handle);
            }
        }
    }
    assert(!live_named(s2, s[k].parent, s[k].name@)) by {
        if live_named(s2, s[k].parent, s[k].name@) {
            let i = choose|i: int|
                0 <= i < s2.len() && s2[i].parent == s[k].parent && s2[i].name@ == s[k].name@;
            let i0 = if i < k { i } else { i + 1 };
            assert(s2[i] == s[i0]);
            if i0 < k {
                assert(!(s[i0].parent == s[k].parent && s[i0].name@ == s[k].name@));
            } else {
                assert(!(s[k].parent == s[i0].parent && s[k].name@ == s[i0].name@));
            }
        }
    }
    assert forall|h2: u64| h2 != h implies #[trigger] has_handle(s2, h2) == has_handle(s, h2) by {
        if has_handle(s, h2) {
            let i = index_of_handle(s, h2);
            assert(0 <= i < s.len() && s[i].handle == h2);
            assert(i != k);
            if i < k {
                assert(s2[i].handle == h2);
            } else {
                assert(s2[i - 1] == s[i]);
            }
            assert(has_handle(s2, h2));
        }
        if has_handle(s2, h2) {
            let i = index_of_handle(s2, h2);
            let i0 = if i < k { i } else { i + 1 };
            assert(s2[i] == s[i0]);
            assert(has_handle(s, h2));
        }
    }
    assert forall|h2: u64| h2 != h && has_handle(s, h2) implies #[trigger] entry_of(s2, h2)
        == entry_of(s, h2) by {
        let i = index_of_handle(s, h2);
        assert(0 <= i < s.len() && s[i].handle == h2);
        assert(i != k);
        lemma_handle_index_unique(s, h2, i);
        if i < k {
            assert(s2[i].handle == h2);
            lemma_handle_index_unique(s2, h2, i);
        } else {
            assert(s2[i - 1] == s[i]);
            lemma_handle_index_unique(s2, h2, i - 1);
        }
    }
    assert forall|p: u64, n: Seq<char>| #[trigger] live_named(s2, p, n) implies live_named(
        s, p, n) by {
        let i = choose|i: int| 0 <= i < s2.len() && s2[i].parent == p && s2[i].name@ == n;
        let i0 = if i < k { i } else { i + 1 };
        assert(s2[i] == s[i0]);
        assert(live_named(s, p, n));
    }
    assert forall|p: u64, n: Seq<char>|
        live_named(s, p, n) && !(p == entry_of(s, h).parent && n == entry_of(s, h).name@)
        implies #[trigger] live_named(s2, p, n) by {
        let i = choose|i: int| 0 <= i < s.len() && s[i].parent == p && s[i].name@ == n;
        assert(i != k);
        if i < k {
            assert(s2[i].parent == p && s2[i].name@ == n);
        } else {
            assert(s2[i - 1] == s[i]);
        }
        assert(live_named(s2, p, n));
    }
}

} // verus!
