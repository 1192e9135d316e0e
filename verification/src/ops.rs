//! The capability set a handler type supplies, mirroring the host's callback
//! table slot for slot but with typed arguments and checked errors.
//!
//! A handler implements only what it needs: seeking defaults to
//! [`Error::Unsupported`] and release defaults to a no-op.  All methods are
//! invoked through shared references, from whichever thread the host happens
//! to run the callback on; any mutation of handler state must go through
//! [`crate::guard::GuardedResource`].

use vstd::prelude::*;

use crate::error::Error;

verus! {

/// Where a seek offset is measured from.
#[derive(Clone, Copy, Debug, PartialEq, Eq, Structural)]
pub enum Whence {
    /// From the start of the content.
    Start,
    /// From the current position.
    Current,
    /// From the end of the content.
    End,
}

/// The numeric convention the host uses for a seek base, decoded: `0` is
/// the start, `1` the current position, `2` the end; anything else is
/// malformed.
pub open spec fn spec_whence_from_code(code: i32) -> Option<Whence> {
    if code == 0 {
        Some(Whence::Start)
    } else if code == 1 {
        Some(Whence::Current)
    } else if code == 2 {
        Some(Whence::End)
    } else {
        None
    }
}

/// Decode the host's numeric seek base.
pub fn whence_from_code(code: i32) -> (r: Option<Whence>)
    ensures
        r == spec_whence_from_code(code),
{
    if code == 0 {
        Some(Whence::Start)
    } else if code == 1 {
        Some(Whence::Current)
    } else if code == 2 {
        Some(Whence::End)
    } else {
        None
    }
}

/// The base position a seek is measured from: the start of the content, the
/// current position `pos`, or the content length `len`.
pub open spec fn seek_base(len: nat, pos: u64, whence: Whence) -> int {
    match whence {
        Whence::Start => 0,
        Whence::Current => pos as int,
        Whence::End => len as int,
    }
}

/// Resolve a seek against content of length `len` from current position
/// `pos`: the new position is the base selected by `whence` plus the
/// displacement `offset`, and must lie in the host's signed offset domain.
pub fn resolve_seek(len: usize, pos: u64, offset: i64, whence: Whence) -> (r: Result<u64, Error>)
    ensures
        r is Ok <==> 0 <= seek_base(len as nat, pos, whence) + offset <= i64::MAX,
        r matches Ok(n) ==> n == seek_base(len as nat, pos, whence) + offset,
        r matches Err(e) ==> e == Error::InvalidArgument,
{
    let base: i128 = match whence {
        Whence::Start => 0i128,
        Whence::Current => pos as i128,
        Whence::End => len as i128,
    };
    let target: i128 = base + (offset as i128);
    if 0 <= target && target <= (i64::MAX as i128) {
        Ok(target as u64)
    } else {
        Err(Error::InvalidArgument)
    }
}

/// The operations a handler type may implement.  One implementing type backs
/// one kind of entry in the host namespace.
///
/// The shared context must be safe to use from several threads at once, and
/// the per-open state must be safe to hand to another thread: the host may
/// run `proc_release` on a different thread than the `proc_open` that
/// produced the state.
pub trait ProcOperations: Sized {
    /// Shared, read-only context every open sees.
    type OpenData;

    /// Per-open state: produced by `proc_open`, consumed by `proc_release`.
    type Data;

    /// Invoked once per external "open" event.
    fn proc_open(shared: &Self::OpenData) -> (r: Result<Self::Data, Error>);

    /// Read up to `size` bytes starting at `offset`.  An empty result is the
    /// end-of-data signal, not a failure; the result never exceeds the
    /// host-supplied buffer bound `size`.
    fn proc_read(data: &Self::Data, offset: u64, size: usize) -> (r: Result<Vec<u8>, Error>)
        ensures
            r matches Ok(v) ==> v@.len() <= size,
    ;

    /// Write `buf` at `offset`, returning how many bytes were consumed.  A
    /// successful write consumes at least one byte — the host retries a
    /// zero-length acceptance forever — and never more than was supplied.
    fn proc_write(data: &Self::Data, offset: u64, buf: &[u8]) -> (r: Result<usize, Error>)
        requires
            buf@.len() > 0,
        ensures
            r matches Ok(n) ==> 0 < n <= buf@.len(),
    ;

    /// Compute a new cursor position from the current position `pos`, the
    /// displacement `offset` and its base `whence`.  Positions live in the
    /// host's signed offset domain.  Optional; the default reports
    /// [`Error::Unsupported`].
    fn proc_lseek(data: &Self::Data, pos: u64, offset: i64, whence: Whence) -> (r: Result<
        u64,
        Error,
    >)
        ensures
            r matches Ok(n) ==> n <= i64::MAX as u64,
        default_ensures
            r == Err::<u64, Error>(Error::Unsupported),
    {
        Err(Error::Unsupported)
    }

    /// Consume the per-open state during teardown.  Cannot fail observably:
    /// teardown must run to completion.  Optional; the default drops the
    /// state.
    fn proc_release(data: Self::Data) {
    }
}

} // verus!
