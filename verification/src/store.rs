//! A growable byte store with the read/write semantics a buffered
//! pseudo-device owes the host.
//!
//! Reads at or past the current content length return no bytes — the
//! end-of-data signal, distinct from failure.  A write whose range ends past
//! the current length grows the store to the new length, zero-filling the gap
//! between the old end and the write offset, then overwrites exactly the
//! written range.

use vstd::prelude::*;

use crate::error::Error;

verus! {

/// What a read at `offset` of at most `size` bytes out of `content`
/// returns: nothing at or past the end, otherwise the bytes from `offset` up
/// to `offset + size` or the end, whichever comes first.
pub open spec fn read_result(content: Seq<u8>, offset: int, size: int) -> Seq<u8> {
    if offset >= content.len() {
        Seq::empty()
    } else if offset + size <= content.len() {
        content.subrange(offset, offset + size)
    } else {
        content.subrange(offset, content.len() as int)
    }
}

/// What the store holds after writing `data` at `offset` into `pre`: the
/// contents grown with zeroes to cover the written range, with the range
/// `[offset, offset + data.len())` replaced by `data`.
pub open spec fn write_result(pre: Seq<u8>, offset: int, data: Seq<u8>) -> Seq<u8> {
    let grown = if offset + data.len() > pre.len() {
        pre + Seq::new((offset + data.len() - pre.len()) as nat, |i: int| 0u8)
    } else {
        pre
    };
    Seq::new(
        grown.len(),
        |i: int|
            if offset <= i < offset + data.len() {
                data[i - offset]
            } else {
                grown[i]
            },
    )
}

/// A byte store; its abstract value is its current contents.
pub struct BufferedStore {
    bytes: Vec<u8>,
}

impl View for BufferedStore {
    type V = Seq<u8>;

    closed spec fn view(&self) -> Seq<u8> {
        self.bytes@
    }
}

impl BufferedStore {
    /// An empty store.
    pub fn new() -> (s: Self)
        ensures
            s@.len() == 0,
    {
        BufferedStore { bytes: Vec::new() }
    }

    /// A store holding `bytes`.
    pub fn from_vec(bytes: Vec<u8>) -> (s: Self)
        ensures
            s@ == bytes@,
    {
        BufferedStore { bytes }
    }

    /// Current content length.
    pub fn len(&self) -> (n: usize)
        ensures
            n == self@.len(),
    {
        self.bytes.len()
    }

    /// Read at most `size` bytes starting at `offset`.  An empty result is
    /// the end-of-data signal, not a failure.
    pub fn read_at(&self, offset: u64, size: usize) -> (r: Vec<u8>)
        ensures
            r@ == read_result(self@, offset as int, size as int),
            r@.len() <= size,
    {
        let len = self.bytes.len();
        if offset >= len as u64 {
            return Vec::new();
        }
        let off = offset as usize;
        let avail = len - off;
        let n = if size < avail {
            size
        } else {
            avail
        };
        let mut out: Vec<u8> = Vec::new();
        let mut i: usize = 0;
        while i < n
            invariant
                i <= n,
                off + n <= self@.len(),
                off + n <= usize::MAX,
                out@ == self@.subrange(off as int, off + i),
            decreases n - i,
        {
            out.push(self.bytes[off + i]);
            assert(out@ == self@.subrange(off as int, off + i + 1));
            i = i + 1;
        }
        assert(out@ == read_result(self@, offset as int, size as int));
        out
    }

    /// Write `data` at `offset`, growing the store (zero-filled) as needed.
    /// Fails — leaving the store untouched — only when the end of the
    /// written range cannot be represented in a machine size.
    pub fn write_at(&mut self, offset: u64, data: &[u8]) -> (r: Result<usize, Error>)
        ensures
            r is Ok <==> offset + data@.len() <= usize::MAX,
            r matches Ok(n) ==> n == data@.len() && final(self)@ == write_result(
                old(self)@,
                offset as int,
                data@,
            ),
            r matches Err(e) ==> e == Error::InvalidArgument && *final(self) == *old(self),
    {
        let dlen = data.len();
        if offset > (usize::MAX - dlen) as u64 {
            return Err(Error::InvalidArgument);
        }
        let off = offset as usize;
        let end = off + dlen;
        if self.bytes.len() < end {
            while self.bytes.len() < end
                invariant
                    old(self)@.len() <= self@.len() <= end,
                    self@.subrange(0, old(self)@.len() as int) == old(self)@,
                    forall|j: int| old(self)@.len() <= j < self@.len() ==> self@[j] == 0u8,
                decreases end - self@.len(),
            {
                self.bytes.push(0u8);
                assert(self@.subrange(0, old(self)@.len() as int) == old(self)@);
            }
        }
        let ghost grown = self@;
        proof {
            assert(grown =~= (if offset as int + data@.len() > old(self)@.len() {
                old(self)@ + Seq::new(
                    (offset as int + data@.len() - old(self)@.len()) as nat,
                    |i: int| 0u8,
                )
            } else {
                old(self)@
            }));
        }
        let mut i: usize = 0;
        while i < dlen
            invariant
                i <= dlen,
                dlen == data@.len(),
                off + dlen <= self@.len(),
                off + dlen <= usize::MAX,
                self@.len() == grown.len(),
                forall|j: int| 0 <= j < off ==> self@[j] == grown[j],
                forall|j: int| off <= j < off + i ==> self@[j] == data@[j - off],
                forall|j: int| off + i <= j < grown.len() ==> self@[j] == grown[j],
            decreases dlen - i,
        {
            self.bytes.set(off + i, data[i]);
            i = i + 1;
        }
        proof {
            assert(self@ =~= write_result(old(self)@, offset as int, data@));
        }
        Ok(dlen)
    }
}

} // verus!
