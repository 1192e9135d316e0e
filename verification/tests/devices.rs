use rustproc::adapter::CallbackAdapter;
use rustproc::completion::CompletionDev;
use rustproc::error::Error;
use rustproc::ops::ProcOperations;
use rustproc::ops::Whence;
use rustproc::ops::resolve_seek;
use rustproc::proc_basic::ShowContext;
use rustproc::proc_basic::Token;
use rustproc::proc_basic::proc_show;
use rustproc::scull::ScullDev;
use rustproc::seqfile::MessageSeq;
use rustproc::seqfile::SeqFile;
use std::sync::Arc;

const MESSAGES: [&str; 7] = [
    "Day 1: God creates the heavens and the earth.",
    "Day 2: God creates the sky.",
    "Day 3: God creates dry land and all plant life both large and small.",
    "Day 4: God creates all the stars and heavenly bodies.",
    "Day 5: God creates all life that lives in the water.",
    "Day 6: God creates all the creatures that live on dry land.",
    "Day 7: God rests.",
];

fn message_table() -> MessageSeq {
    MessageSeq::new(MESSAGES.iter().map(|m| m.to_string()).collect())
}

#[test]
fn open_count_tracks_sequential_opens() {
    let dev = ScullDev::try_new(String::from("counted"), 2);
    assert_eq!(dev.number(), 2);
    assert_eq!(dev.open_count(), 0);
    let n = 20;
    for _ in 0..n {
        let (code, handle) = CallbackAdapter::<rustproc::scull::RustFile>::proc_open(&dev);
        assert_eq!(code, 0);
        CallbackAdapter::<rustproc::scull::RustFile>::proc_release(handle.unwrap());
    }
    assert_eq!(dev.open_count(), n);
}

#[test]
fn wait_signal_single_slot() {
    let dev = CompletionDev::try_new();
    // A read with no prior write would block.
    assert!(!dev.try_wait());
    // A write releases exactly one read.
    dev.complete();
    assert!(dev.try_wait());
    // The next read with no further write would block again.
    assert!(!dev.try_wait());
    // The slot does not count signals.
    dev.complete();
    dev.complete();
    assert!(dev.try_wait());
    assert!(!dev.try_wait());
}

#[test]
fn wait_signal_through_the_adapter() {
    let dev = CompletionDev::try_new();
    let (code, opened) = CallbackAdapter::<rustproc::completion::RustFile>::proc_open(&dev);
    assert_eq!(code, 0);
    let handle = opened.unwrap();

    // Unsignalled: the read reports "would block".
    let (code, bytes) = CallbackAdapter::<rustproc::completion::RustFile>::proc_read(&handle, 0, 8);
    assert_eq!(code, Error::Busy.status_code());
    assert!(bytes.is_empty());

    // A write signals and consumes its whole buffer.
    let code = CallbackAdapter::<rustproc::completion::RustFile>::proc_write(&handle, 0, b"go");
    assert_eq!(code, 2);

    // Now one read is released (zero bytes: the signal has no payload)...
    let (code, bytes) = CallbackAdapter::<rustproc::completion::RustFile>::proc_read(&handle, 0, 8);
    assert_eq!(code, 0);
    assert!(bytes.is_empty());

    // ...and the next read would block again.
    let (code, _) = CallbackAdapter::<rustproc::completion::RustFile>::proc_read(&handle, 0, 8);
    assert_eq!(code, Error::Busy.status_code());
}

#[test]
fn sequence_cursor_walks_the_table() {
    let table = message_table();
    assert_eq!(table.len(), 7);
    let first = table.proc_seq_start(0);
    assert_eq!(first.as_deref(), Some(MESSAGES[0]));
    let mut pos = 0usize;
    let second = table.proc_seq_next(&mut pos);
    assert_eq!(pos, 1);
    assert_eq!(second.as_deref(), Some(MESSAGES[1]));
    let mut last = 6usize;
    assert_eq!(table.proc_seq_next(&mut last), None);
    assert_eq!(last, 7);
    assert_eq!(table.proc_seq_start(7), None);
    table.proc_seq_stop();
}

#[test]
fn sequence_entry_renders_one_line_per_row() {
    let table = message_table();
    let line = table.proc_seq_show();
    assert_eq!(line, b"seq_printf in proc_seq_show\n".to_vec());
    let rendered = table.render();
    assert_eq!(rendered.len(), line.len() * 7);
    for chunk in rendered.chunks(line.len()) {
        assert_eq!(chunk, &line[..]);
    }
}

#[test]
fn sequence_entry_through_the_adapter() {
    let shared = Arc::new(message_table());
    let (code, opened) = CallbackAdapter::<SeqFile>::proc_open(&shared);
    assert_eq!(code, 0);
    let buf = opened.unwrap();
    let line_len = "seq_printf in proc_seq_show\n".len() as i64;
    let (code, bytes) = CallbackAdapter::<SeqFile>::proc_read(&buf, 0, 28);
    assert_eq!(code, line_len);
    assert_eq!(bytes, b"seq_printf in proc_seq_show\n".to_vec());
    // The entry is read-only.
    let code = CallbackAdapter::<SeqFile>::proc_write(&buf, 0, b"x");
    assert_eq!(code, Error::Unsupported.status_code());
    // Seeking to the end (numeric base 2) reports the rendered length.
    let code = CallbackAdapter::<SeqFile>::proc_lseek(&buf, 0, 0, 2);
    assert_eq!(code, line_len * 7);
}

#[test]
fn show_entry_serves_its_message() {
    let ctx = ShowContext::new(b"Hello World!\n".to_vec(), 3);
    assert_eq!(ctx.count(), 3);
    assert_eq!(proc_show(&ctx), b"Hello World!\n".to_vec());

    let shared = Arc::new(ctx);
    let opened = Token::proc_open(&shared).unwrap();
    let read = Token::proc_read(&opened, 0, 64).unwrap();
    assert_eq!(read, b"Hello World!\n".to_vec());
    // A read past the rendered text is the end-of-data signal.
    let empty = Token::proc_read(&opened, 13, 64).unwrap();
    assert!(empty.is_empty());
    // The entry is read-only.
    assert_eq!(Token::proc_write(&opened, 0, b"x"), Err(Error::Unsupported));
}

#[test]
fn seek_resolution() {
    assert_eq!(resolve_seek(10, 0, 4, Whence::Start), Ok(4));
    assert_eq!(resolve_seek(10, 6, -2, Whence::Current), Ok(4));
    assert_eq!(resolve_seek(10, 0, -3, Whence::End), Ok(7));
    assert_eq!(resolve_seek(10, 0, 5, Whence::End), Ok(15));
    assert_eq!(
        resolve_seek(10, 0, -1, Whence::Start),
        Err(Error::InvalidArgument)
    );
    assert_eq!(
        resolve_seek(10, 3, -4, Whence::Current),
        Err(Error::InvalidArgument)
    );
    assert_eq!(
        resolve_seek(0, u64::MAX, 1, Whence::Current),
        Err(Error::InvalidArgument)
    );
}
