//! The per-handler-type callback adapter: the single boundary where checked
//! results become host status codes, and where the fixed-layout callback
//! table is assembled.
//!
//! The host invokes callback slots directly and understands only the signed
//! status convention: a non-negative value is success (and may carry a byte
//! count), a negative value is an error code.  Every entry point here unpacks
//! typed arguments, invokes the corresponding capability method, and converts
//! the outcome — no failure crosses this boundary in any other form.
//!
//! The entry points hold no state of their own and are reentrant: the host
//! may run them concurrently from any thread, for the same or different
//! per-open state.  No locking happens here — concurrency safety is entirely
//! the handler's responsibility, through [`crate::guard::GuardedResource`].

use vstd::prelude::*;

use crate::error::Error;
use crate::error::is_error_code;
use crate::error::lemma_status_code_round_trip;
use crate::ops::ProcOperations;
use crate::ops::spec_whence_from_code;
use crate::ops::whence_from_code;

verus! {

/// Whether a slot in the host's callback table is backed by an entry point or
/// explicitly marked absent.  The host loader requires every slot to be
/// present in the table, so absence must be explicit.
#[derive(Clone, Copy, Debug, PartialEq, Eq, Structural)]
pub enum SlotState {
    /// The slot carries an entry point.
    Provided,
    /// The slot is explicitly marked "not provided".
    NotProvided,
}

/// The fixed-layout table of callback slots that backs one kind of entry in
/// the host namespace.  All slots are always present; the ones this subsystem
/// never backs are still listed, marked [`SlotState::NotProvided`].
#[derive(Clone, Copy, Debug, PartialEq, Eq, Structural)]
pub struct CallbackTable {
    pub open_slot: SlotState,
    pub read_slot: SlotState,
    pub write_slot: SlotState,
    pub lseek_slot: SlotState,
    pub release_slot: SlotState,
    pub poll_slot: SlotState,
    pub ioctl_slot: SlotState,
    pub compat_ioctl_slot: SlotState,
    pub mmap_slot: SlotState,
    pub get_unmapped_area_slot: SlotState,
    pub read_iter_slot: SlotState,
}

/// The table the adapter installs for every handler type: the five capability
/// slots are backed, everything else is explicitly absent.
pub open spec fn adapter_table() -> CallbackTable {
    CallbackTable {
        open_slot: SlotState::Provided,
        read_slot: SlotState::Provided,
        write_slot: SlotState::Provided,
        lseek_slot: SlotState::Provided,
        release_slot: SlotState::Provided,
        poll_slot: SlotState::NotProvided,
        ioctl_slot: SlotState::NotProvided,
        compat_ioctl_slot: SlotState::NotProvided,
        mmap_slot: SlotState::NotProvided,
        get_unmapped_area_slot: SlotState::NotProvided,
        read_iter_slot: SlotState::NotProvided,
    }
}

/// The status code for an `open` outcome: `0` on success, the error's code
/// otherwise.
pub open spec fn spec_open_code<D>(r: Result<D, Error>) -> int {
    match r {
        Ok(_) => 0,
        Err(e) => e.spec_code(),
    }
}

/// Convert an `open` outcome into the host convention, keeping the produced
/// per-open data alongside the code.  The code is non-negative exactly when
/// the outcome was a success.
pub fn open_status<D>(r: Result<D, Error>) -> (out: (i64, Option<D>))
    ensures
        out.0 == spec_open_code(r),
        r matches Ok(d) ==> out.1 == Some(d),
        r is Err ==> out.1 is None,
{
    match r {
        Ok(d) => (0, Some(d)),
        Err(e) => (e.status_code(), None),
    }
}

/// The sign of the translated status code always matches the result variant:
/// non-negative for success, negative for every error kind.
pub proof fn lemma_open_code_sign_matches_variant<D>(r: Result<D, Error>)
    ensures
        spec_open_code(r) >= 0 <==> r is Ok,
        r matches Err(e) ==> spec_open_code(r) == e.spec_code() < 0,
        r is Err ==> is_error_code(spec_open_code(r)),
{
    match r {
        Ok(_) => {},
        Err(e) => {
            lemma_status_code_round_trip(e);
        },
    }
}

/// The static set of native entry points for one handler type `H`: each entry
/// point invokes the corresponding capability method of `H` and converts the
/// checked outcome into the host's status convention.  This is the sole
/// chokepoint between handler code and the host — no failure crosses it in
/// any form other than a negative code.
pub struct CallbackAdapter<H: ProcOperations> {
    handler: core::marker::PhantomData<H>,
}

impl<H: ProcOperations> CallbackAdapter<H> {
    /// Assemble the fixed-layout callback table for this handler type.
    pub fn build() -> (t: CallbackTable)
        ensures
            t == adapter_table(),
    {
        CallbackTable {
            open_slot: SlotState::Provided,
            read_slot: SlotState::Provided,
            write_slot: SlotState::Provided,
            lseek_slot: SlotState::Provided,
            release_slot: SlotState::Provided,
            poll_slot: SlotState::NotProvided,
            ioctl_slot: SlotState::NotProvided,
            compat_ioctl_slot: SlotState::NotProvided,
            mmap_slot: SlotState::NotProvided,
            get_unmapped_area_slot: SlotState::NotProvided,
            read_iter_slot: SlotState::NotProvided,
        }
    }

    /// The `open` entry point: the returned code is non-negative exactly when
    /// the handler produced per-open state, and `0` in that case.
    pub fn proc_open(shared: &H::OpenData) -> (r: (i64, Option<H::Data>))
        ensures
            r.0 >= 0 <==> r.1 is Some,
            r.1 is Some ==> r.0 == 0,
            r.0 < 0 ==> is_error_code(r.0 as int),
    {
        let res = H::proc_open(shared);
        proof {
            lemma_open_code_sign_matches_variant(res);
        }
        open_status(res)
    }

    /// The `read` entry point: a non-negative code is the byte count of the
    /// returned data, never above the host-supplied bound `size`; a negative
    /// code is an error and no data is handed back.
    pub fn proc_read(data: &H::Data, offset: u64, size: usize) -> (r: (i64, Vec<u8>))
        requires
            size <= i64::MAX as usize,
        ensures
            r.0 >= 0 ==> r.0 == r.1@.len() && r.1@.len() <= size,
            r.0 < 0 ==> is_error_code(r.0 as int) && r.1@.len() == 0,
    {
        match H::proc_read(data, offset, size) {
            Ok(v) => {
                let n = v.len();
                (n as i64, v)
            },
            Err(e) => {
                proof {
                    lemma_status_code_round_trip(e);
                }
                (e.status_code(), Vec::new())
            },
        }
    }

    /// The `write` entry point: an empty transfer is accepted without
    /// consulting the handler; otherwise a non-negative code is a strictly
    /// positive count of consumed bytes, never above what was supplied.
    pub fn proc_write(data: &H::Data, offset: u64, buf: &[u8]) -> (r: i64)
        requires
            buf@.len() <= i64::MAX as usize,
        ensures
            buf@.len() == 0 ==> r == 0,
            r >= 0 ==> r <= buf@.len(),
            r >= 0 && buf@.len() > 0 ==> r > 0,
            r < 0 ==> is_error_code(r as int),
    {
        if buf.len() == 0 {
            return 0;
        }
        match H::proc_write(data, offset, buf) {
            Ok(n) => n as i64,
            Err(e) => {
                proof {
                    lemma_status_code_round_trip(e);
                }
                e.status_code()
            },
        }
    }

    /// The `lseek` entry point: the numeric seek base is decoded first — a
    /// malformed one is rejected without consulting the handler — and a
    /// non-negative code is the new cursor position.
    pub fn proc_lseek(data: &H::Data, pos: u64, offset: i64, whence: i32) -> (r: i64)
        ensures
            spec_whence_from_code(whence) is None ==> r == Error::InvalidArgument.spec_code(),
            r < 0 ==> is_error_code(r as int),
    {
        let decoded = match whence_from_code(whence) {
            Some(w) => w,
            None => {
                proof {
                    lemma_status_code_round_trip(Error::InvalidArgument);
                }
                return Error::InvalidArgument.status_code();
            },
        };
        match H::proc_lseek(data, pos, offset, decoded) {
            Ok(n) => n as i64,
            Err(e) => {
                proof {
                    lemma_status_code_round_trip(e);
                }
                e.status_code()
            },
        }
    }

    /// The `release` entry point: teardown always completes and always
    /// reports success, whatever the handler did.
    pub fn proc_release(data: H::Data) -> (r: i64)
        ensures
            r == 0,
    {
        H::proc_release(data);
        0
    }
}

} // verus!
