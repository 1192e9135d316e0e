//! A multi-row sequence handler: a fixed table of messages walked by a
//! cursor, rendered row by row into the entry's content.
//!
//! The iteration protocol mirrors the host's sequence interface: `start`
//! yields the row at the cursor or signals the end, `next` advances the
//! cursor and yields the row there, `stop` ends a pass, and `show` renders
//! one row.  The rendered content of the whole entry is the show line
//! repeated once per row; the handler serves byte ranges of it.

use std::sync::Arc;
use vstd::prelude::*;
use vstd::string::StringSliceAdditionalSpecFns;

use crate::adapter::adapter_table;
use crate::error::Error;
use crate::host::HostEntry;
use crate::host::HostNamespace;
use crate::host::create_allowed;
use crate::host::create_error;
use crate::host::created;
use crate::host::entry_of;
use crate::host::has_handle;
use crate::host::removed;
use crate::ops::ProcOperations;
use crate::ops::Whence;
use crate::ops::resolve_seek;
use crate::registration::RustProcRegistration;
use crate::store::BufferedStore;

verus! {

/// The line the show callback renders for every row.
pub open spec fn seq_show_line() -> Seq<u8> {
    "seq_printf in proc_seq_show\n".spec_bytes()
}

/// `line` repeated `n` times.
pub open spec fn repeated(line: Seq<u8>, n: nat) -> Seq<u8>
    decreases n,
{
    if n == 0 {
        Seq::empty()
    } else {
        repeated(line, (n - 1) as nat) + line
    }
}

/// The message table one sequence entry iterates over.
pub struct MessageSeq {
    messages: Vec<String>,
}

impl View for MessageSeq {
    type V = Seq<String>;

    closed spec fn view(&self) -> Seq<String> {
        self.messages@
    }
}

impl MessageSeq {
    /// A table holding `messages`, passed in explicitly at construction.
    pub fn new(messages: Vec<String>) -> (s: Self)
        ensures
            s@ == messages@,
    {
        MessageSeq { messages }
    }

    /// Number of rows.
    pub fn len(&self) -> (n: usize)
        ensures
            n == self@.len(),
    {
        self.messages.len()
    }

    /// Begin an iteration pass: the row at cursor `pos`, or nothing when the
    /// cursor is at or past the end of the table.
    pub fn proc_seq_start(&self, pos: usize) -> (r: Option<String>)
        ensures
            match r {
                Some(m) => pos < self@.len() && m@ == self@[pos as int]@,
                None => pos >= self@.len(),
            },
    {
        if pos >= self.messages.len() {
            None
        } else {
            Some(self.messages[pos].clone())
        }
    }

    /// Advance the cursor by one and yield the row there, or nothing when
    /// the advanced cursor leaves the table.
    pub fn proc_seq_next(&self, pos: &mut usize) -> (r: Option<String>)
        requires
            *old(pos) < usize::MAX,
        ensures
            *final(pos) == *old(pos) + 1,
            match r {
                Some(m) => *old(pos) + 1 < self@.len() && m@ == self@[*old(pos) + 1]@,
                None => *old(pos) + 1 >= self@.len(),
            },
    {
        *pos = *pos + 1;
        if *pos >= self.messages.len() {
            None
        } else {
            Some(self.messages[*pos].clone())
        }
    }

    /// End an iteration pass.  Nothing is held across a pass, so nothing is
    /// released.
    pub fn proc_seq_stop(&self) {
    }

    /// Render one row: the fixed show line.
    pub fn proc_seq_show(&self) -> (r: Vec<u8>)
        ensures
            r@ == seq_show_line(),
    {
        let line: &[u8] = "seq_printf in proc_seq_show\n".as_bytes();
        let mut out: Vec<u8> = Vec::new();
        let mut j: usize = 0;
        while j < line.len()
            invariant
                j <= line@.len(),
                line@ == seq_show_line(),
                out@ == line@.subrange(0, j as int),
            decreases line@.len() - j,
        {
            out.push(line[j]);
            j = j + 1;
        }
        assert(out@ == seq_show_line());
        out
    }

    /// Render the whole entry: one show line per row.
    pub fn render(&self) -> (v: Vec<u8>)
        ensures
            v@ == repeated(seq_show_line(), self@.len()),
    {
        let count = self.messages.len();
        let mut out: Vec<u8> = Vec::new();
        let mut i: usize = 0;
        while i < count
            invariant
                i <= count,
                out@ == repeated(seq_show_line(), i as nat),
            decreases count - i,
        {
            let mut line = self.proc_seq_show();
            let mut j: usize = 0;
            let ghost sofar = out@;
            while j < line.len()
                invariant
                    j <= line@.len(),
                    line@ == seq_show_line(),
                    out@ == sofar + line@.subrange(0, j as int),
                decreases line@.len() - j,
            {
                out.push(line[j]);
                j = j + 1;
            }
            proof {
                assert(line@.subrange(0, line@.len() as int) =~= line@);
                assert(out@ =~= repeated(seq_show_line(), (i + 1) as nat));
            }
            i = i + 1;
        }
        out
    }
}

/// The capability implementation backing a sequence entry: an open renders
/// the current table into a per-open buffer, reads serve byte ranges of it,
/// seeks move within it, and the entry is read-only.
pub struct SeqFile;

impl ProcOperations for SeqFile {
    type OpenData = Arc<MessageSeq>;

    type Data = BufferedStore;

    fn proc_open(shared: &Arc<MessageSeq>) -> (r: Result<BufferedStore, Error>) {
        Ok(BufferedStore::from_vec(shared.render()))
    }

    fn proc_read(data: &BufferedStore, offset: u64, size: usize) -> (r: Result<Vec<u8>, Error>) {
        Ok(data.read_at(offset, size))
    }

    fn proc_write(data: &BufferedStore, offset: u64, buf: &[u8]) -> (r: Result<usize, Error>) {
        Err(Error::Unsupported)
    }

    fn proc_lseek(data: &BufferedStore, pos: u64, offset: i64, whence: Whence) -> (r: Result<
        u64,
        Error,
    >) {
        resolve_seek(data.len(), pos, offset, whence)
    }
}

/// The module state owning one sequence entry registered at the root,
/// together with the table it serves.
pub struct RustProcFsIterator {
    table: Arc<MessageSeq>,
    reg: RustProcRegistration,
}

impl RustProcFsIterator {
    /// The owned entry handle, while live.
    pub closed spec fn spec_entry(self) -> Option<u64> {
        self.reg.spec_entry()
    }

    /// The message table the entry serves.
    pub closed spec fn spec_table(self) -> Arc<MessageSeq> {
        self.table
    }

    /// The handle this object owns, if any, is live in `ns`.
    pub open spec fn valid_in(self, ns: Seq<HostEntry>) -> bool {
        self.spec_entry() matches Some(h) ==> has_handle(ns, h)
    }

    /// The message table, to borrow as the shared context of opens.
    pub fn table(&self) -> (r: &Arc<MessageSeq>)
        ensures
            *r == self.spec_table(),
    {
        &self.table
    }

    /// Set the module up: register one sequence entry named `filename` at
    /// the root, serving `messages`, backed by [`SeqFile`].
    pub fn init(ns: &mut HostNamespace, filename: &str, messages: Vec<String>) -> (r: Result<
        RustProcFsIterator,
        Error,
    >)
        requires
            old(ns).wf(),
        ensures
            final(ns).wf(),
            r is Ok <==> create_allowed(old(ns)@, 0, filename@) && old(ns).can_allocate(),
            r matches Ok(m) ==> (m.spec_entry() matches Some(h) && created(
                old(ns)@,
                final(ns)@,
                0,
                filename@,
                h,
            ) && entry_of(final(ns)@, h).table == Some(adapter_table()) && m.valid_in(final(ns)@)
                && m.spec_table()@ == messages@),
            r matches Err(e) ==> *final(ns) == *old(ns) && e == create_error(old(ns)@, 0, filename@),
    {
        let table = Arc::new(MessageSeq::new(messages));
        let mut reg = RustProcRegistration::new(0);
        match reg.register::<SeqFile>(ns, filename, None) {
            Ok(()) => Ok(RustProcFsIterator { table, reg }),
            Err(e) => Err(e),
        }
    }

    /// Tear the entry down.  Idempotent like the handle it owns.
    pub fn shutdown(&mut self, ns: &mut HostNamespace)
        requires
            old(ns).wf(),
            old(self).valid_in(old(ns)@),
        ensures
            final(ns).wf(),
            final(self).spec_entry() is None,
            old(self).spec_entry() is None ==> *final(ns) == *old(ns),
            old(self).spec_entry() matches Some(h) ==> removed(old(ns)@, final(ns)@, h),
    {
        self.reg.remove(ns);
    }
}

} // verus!
