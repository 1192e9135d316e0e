use rustproc::completion::RustCompletion;
use rustproc::error::Error;
use rustproc::host::HostNamespace;
use rustproc::minimal::RustMinimal;
use rustproc::proc_basic::RustProc;
use rustproc::scull::RustScull;
use rustproc::seqfile::RustProcFsIterator;

#[test]
fn proc_module_setup_and_teardown() {
    let mut ns = HostNamespace::new();
    let mut module = RustProc::init(&mut ns, "proc_demo", "proc_fs", "proc_fs_mul", 3)
        .expect("fresh namespace accepts the setup");
    assert_eq!(ns.entry_count(), 3);
    assert!(ns.contains_name(0, "proc_demo"));

    // A second identical setup collides on the directory name.
    assert_eq!(
        RustProc::init(&mut ns, "proc_demo", "proc_fs", "proc_fs_mul", 3).err(),
        Some(Error::AlreadyExists)
    );
    // The failed attempt tore its stages down: nothing extra is live.
    assert_eq!(ns.entry_count(), 3);

    module.shutdown(&mut ns);
    assert_eq!(ns.entry_count(), 0);
    module.shutdown(&mut ns);
    assert_eq!(ns.entry_count(), 0);
}

#[test]
fn proc_module_rejects_equal_child_names() {
    let mut ns = HostNamespace::new();
    let r = RustProc::init(&mut ns, "demo", "same", "same", 0);
    assert_eq!(r.err(), Some(Error::AlreadyExists));
    // The directory created for the attempt was removed again.
    assert_eq!(ns.entry_count(), 0);
    assert!(!ns.contains_name(0, "demo"));
}

#[test]
fn scull_module_setup_and_teardown() {
    let mut ns = HostNamespace::new();
    let mut module = RustScull::init(&mut ns, "rust_scull0", "rust_scull1", "rust_scull2")
        .expect("fresh namespace accepts the setup");
    assert_eq!(ns.entry_count(), 3);
    assert!(ns.contains_name(0, "rust_scull1"));
    assert_eq!(module.device0().number(), 0);
    assert_eq!(module.device1().number(), 1);
    assert_eq!(module.device2().number(), 2);

    let failed = RustScull::init(&mut ns, "other0", "rust_scull2", "other2");
    assert_eq!(failed.err(), Some(Error::AlreadyExists));
    // The partial setup was unwound.
    assert_eq!(ns.entry_count(), 3);
    assert!(!ns.contains_name(0, "other0"));

    module.shutdown(&mut ns);
    assert_eq!(ns.entry_count(), 0);
}

#[test]
fn scull_module_rejects_duplicate_names_in_one_call() {
    let mut ns = HostNamespace::new();
    let r = RustScull::init(&mut ns, "a", "a", "b");
    assert_eq!(r.err(), Some(Error::AlreadyExists));
    assert_eq!(ns.entry_count(), 0);
}

#[test]
fn iterator_module_setup() {
    let mut ns = HostNamespace::new();
    let messages = vec![String::from("one"), String::from("two")];
    let mut module = RustProcFsIterator::init(&mut ns, "proc_fs_iterator", messages)
        .expect("fresh namespace accepts the entry");
    assert!(ns.contains_name(0, "proc_fs_iterator"));
    assert_eq!(module.table().len(), 2);
    module.shutdown(&mut ns);
    assert_eq!(ns.entry_count(), 0);
    module.shutdown(&mut ns);
    assert_eq!(ns.entry_count(), 0);
}

#[test]
fn completion_module_setup() {
    let mut ns = HostNamespace::new();
    let mut module =
        RustCompletion::init(&mut ns, "rust_ldd06").expect("fresh namespace accepts the entry");
    assert!(ns.contains_name(0, "rust_ldd06"));
    let dev = module.device();
    assert!(!dev.try_wait());
    dev.complete();
    assert!(dev.try_wait());
    module.shutdown(&mut ns);
    assert_eq!(ns.entry_count(), 0);
}

#[test]
fn minimal_module_numbers() {
    let module = RustMinimal::init();
    assert_eq!(module.numbers(), &vec![72, 108, 200]);
}
