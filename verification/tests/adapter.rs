use rustproc::adapter::CallbackAdapter;
use rustproc::adapter::SlotState;
use rustproc::error::Error;
use rustproc::ops::ProcOperations;
use rustproc::scull::ScullDev;

/// A handler whose outcomes are driven by its shared context, to exercise
/// every path through the adapter boundary.
struct Scripted;

impl ProcOperations for Scripted {
    type OpenData = Result<u8, Error>;
    type Data = u8;

    fn proc_open(shared: &Result<u8, Error>) -> Result<u8, Error> {
        shared.clone()
    }

    fn proc_read(data: &u8, _offset: u64, size: usize) -> Result<Vec<u8>, Error> {
        match data {
            0 => Err(Error::Unknown),
            1 => Err(Error::Busy),
            _ => {
                let n = if size < 3 { size } else { 3 };
                Ok(vec![*data; n])
            }
        }
    }

    fn proc_write(data: &u8, _offset: u64, buf: &[u8]) -> Result<usize, Error> {
        match data {
            0 => Err(Error::OutOfMemory),
            _ => Ok(buf.len()),
        }
    }
}

#[test]
fn open_code_sign_matches_outcome() {
    let (code, data) = CallbackAdapter::<Scripted>::proc_open(&Ok(5));
    assert_eq!(code, 0);
    assert_eq!(data, Some(5));

    let (code, data) = CallbackAdapter::<Scripted>::proc_open(&Err(Error::OutOfMemory));
    assert_eq!(code, -12);
    assert_eq!(data, None);

    let (code, data) = CallbackAdapter::<Scripted>::proc_open(&Err(Error::NotFound));
    assert_eq!(code, -2);
    assert_eq!(data, None);
}

#[test]
fn read_code_is_byte_count_or_error() {
    let (code, bytes) = CallbackAdapter::<Scripted>::proc_read(&5, 0, 10);
    assert_eq!(code, 3);
    assert_eq!(bytes, vec![5u8, 5, 5]);

    let (code, bytes) = CallbackAdapter::<Scripted>::proc_read(&0, 0, 10);
    assert_eq!(code, -5);
    assert!(bytes.is_empty());

    let (code, bytes) = CallbackAdapter::<Scripted>::proc_read(&1, 0, 10);
    assert_eq!(code, -16);
    assert!(bytes.is_empty());
}

#[test]
fn write_code_is_positive_count_or_error() {
    let code = CallbackAdapter::<Scripted>::proc_write(&5, 0, &[1, 2, 3]);
    assert_eq!(code, 3);
    assert!(code > 0);

    let code = CallbackAdapter::<Scripted>::proc_write(&0, 0, &[1]);
    assert_eq!(code, -12);

    // An empty transfer is accepted without consulting the handler.
    let code = CallbackAdapter::<Scripted>::proc_write(&0, 0, &[]);
    assert_eq!(code, 0);
}

#[test]
fn lseek_defaults_to_unsupported() {
    let code = CallbackAdapter::<Scripted>::proc_lseek(&5, 0, 0, 0);
    assert_eq!(code, -38);
}

#[test]
fn lseek_rejects_an_unknown_seek_base() {
    let code = CallbackAdapter::<Scripted>::proc_lseek(&5, 0, 0, 7);
    assert_eq!(code, Error::InvalidArgument.status_code());
}

#[test]
fn release_always_reports_success() {
    let code = CallbackAdapter::<Scripted>::proc_release(5);
    assert_eq!(code, 0);
}

#[test]
fn table_backs_exactly_the_capability_slots() {
    let t = CallbackAdapter::<Scripted>::build();
    assert_eq!(t.open_slot, SlotState::Provided);
    assert_eq!(t.read_slot, SlotState::Provided);
    assert_eq!(t.write_slot, SlotState::Provided);
    assert_eq!(t.lseek_slot, SlotState::Provided);
    assert_eq!(t.release_slot, SlotState::Provided);
    assert_eq!(t.poll_slot, SlotState::NotProvided);
    assert_eq!(t.ioctl_slot, SlotState::NotProvided);
    assert_eq!(t.compat_ioctl_slot, SlotState::NotProvided);
    assert_eq!(t.mmap_slot, SlotState::NotProvided);
    assert_eq!(t.get_unmapped_area_slot, SlotState::NotProvided);
    assert_eq!(t.read_iter_slot, SlotState::NotProvided);
    // Every handler type gets the same table shape.
    let t2 = CallbackAdapter::<rustproc::scull::RustFile>::build();
    assert_eq!(t, t2);
}

#[test]
fn buffered_device_through_the_adapter() {
    let dev = ScullDev::try_new(String::from("scull0"), 0);
    let (code, opened) = CallbackAdapter::<rustproc::scull::RustFile>::proc_open(&dev);
    assert_eq!(code, 0);
    let handle = opened.expect("open succeeded");

    let code = CallbackAdapter::<rustproc::scull::RustFile>::proc_write(&handle, 0, b"hello");
    assert_eq!(code, 5);

    let (code, bytes) = CallbackAdapter::<rustproc::scull::RustFile>::proc_read(&handle, 0, 64);
    assert_eq!(code, 5);
    assert_eq!(bytes, b"hello".to_vec());

    // The per-open handle shares the device: the write is visible through
    // the original reference too.
    assert_eq!(dev.content_len(), 5);
    assert_eq!(CallbackAdapter::<rustproc::scull::RustFile>::proc_release(handle), 0);
}

#[test]
fn status_codes_round_trip() {
    let kinds = [
        Error::InvalidArgument,
        Error::NotFound,
        Error::AlreadyExists,
        Error::OutOfMemory,
        Error::Unsupported,
        Error::Busy,
        Error::Unknown,
    ];
    for e in kinds {
        let code = e.status_code();
        assert!(code < 0);
        assert_eq!(Error::classify_status(code), Some(e));
    }
    assert_eq!(Error::classify_status(0), None);
    assert_eq!(Error::classify_status(7), None);
    assert_eq!(Error::classify_status(-999), Some(Error::Unknown));
}
