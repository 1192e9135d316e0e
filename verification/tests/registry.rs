use rustproc::error::Error;
use rustproc::host::HostNamespace;
use rustproc::registration::DirectoryHandle;
use rustproc::registration::RustProcRegistration;
use rustproc::scull::RustFile;

#[test]
fn duplicate_name_under_same_directory_fails() {
    let mut ns = HostNamespace::new();
    let mut first = RustProcRegistration::new(0);
    assert_eq!(first.register::<RustFile>(&mut ns, "alpha", None), Ok(()));
    let mut second = RustProcRegistration::new(0);
    assert_eq!(
        second.register::<RustFile>(&mut ns, "alpha", None),
        Err(Error::AlreadyExists)
    );
    // The first entry is untouched and still removable.
    assert!(ns.contains_name(0, "alpha"));
    assert_eq!(ns.entry_count(), 1);
    first.remove(&mut ns);
    assert!(!ns.contains_name(0, "alpha"));
    assert_eq!(ns.entry_count(), 0);
}

#[test]
fn failed_registration_performs_no_removal() {
    let mut ns = HostNamespace::new();
    let mut holder = RustProcRegistration::new(0);
    holder.register::<RustFile>(&mut ns, "busy", None).unwrap();
    let mut failed = RustProcRegistration::new(0);
    assert!(failed.register::<RustFile>(&mut ns, "busy", None).is_err());
    // Removing a handle whose construction failed must not touch the host.
    failed.remove(&mut ns);
    assert_eq!(ns.entry_count(), 1);
    assert!(ns.contains_name(0, "busy"));
}

#[test]
fn double_remove_is_a_noop() {
    let mut ns = HostNamespace::new();
    let mut reg = RustProcRegistration::new(0);
    reg.register::<RustFile>(&mut ns, "gone", None).unwrap();
    reg.remove(&mut ns);
    assert_eq!(ns.entry_count(), 0);
    reg.remove(&mut ns);
    assert_eq!(ns.entry_count(), 0);
}

#[test]
fn parent_directory_is_honoured() {
    let mut ns = HostNamespace::new();
    let dir = RustProcRegistration::mkdir(&mut ns, "demo", 0).unwrap();
    let mut inside = RustProcRegistration::new(dir);
    assert_eq!(inside.register::<RustFile>(&mut ns, "leaf", None), Ok(()));
    assert!(ns.contains_name(dir, "leaf"));
    assert!(!ns.contains_name(0, "leaf"));
    // The same name under a different parent does not collide.
    let mut at_root = RustProcRegistration::new(0);
    assert_eq!(at_root.register::<RustFile>(&mut ns, "leaf", None), Ok(()));
}

#[test]
fn creation_error_kinds() {
    let mut ns = HostNamespace::new();
    let mut empty = RustProcRegistration::new(0);
    assert_eq!(
        empty.register::<RustFile>(&mut ns, "", None),
        Err(Error::InvalidArgument)
    );
    let mut dangling = RustProcRegistration::new(777);
    assert_eq!(
        dangling.register::<RustFile>(&mut ns, "orphan", None),
        Err(Error::NotFound)
    );
    // A plain entry is not a directory and cannot be a parent.
    let mut plain = RustProcRegistration::new(0);
    plain.register::<RustFile>(&mut ns, "plain", None).unwrap();
    let entry = ns.entry(1).expect("first handle is live");
    assert!(!entry.is_dir);
    let mut under_plain = RustProcRegistration::new(1);
    assert_eq!(
        under_plain.register::<RustFile>(&mut ns, "child", None),
        Err(Error::NotFound)
    );
}

#[test]
fn directory_and_children_remove_in_either_order() {
    // Children first.
    let mut ns = HostNamespace::new();
    let mut dir = DirectoryHandle::mkdir(&mut ns, "d1", 0).unwrap();
    let mut child = RustProcRegistration::new(dir.raw());
    child.register::<RustFile>(&mut ns, "c", None).unwrap();
    child.remove(&mut ns);
    dir.remove(&mut ns);
    assert_eq!(ns.entry_count(), 0);

    // Directory first: both removals are independent and idempotent.
    let mut dir2 = DirectoryHandle::mkdir(&mut ns, "d2", 0).unwrap();
    let mut child2 = RustProcRegistration::new(dir2.raw());
    child2.register::<RustFile>(&mut ns, "c", None).unwrap();
    dir2.remove(&mut ns);
    child2.remove(&mut ns);
    assert_eq!(ns.entry_count(), 0);
    dir2.remove(&mut ns);
    child2.remove(&mut ns);
    assert_eq!(ns.entry_count(), 0);
}

#[test]
fn directory_dropped_with_zero_children() {
    let mut ns = HostNamespace::new();
    let mut dir = DirectoryHandle::mkdir(&mut ns, "lonely", 0).unwrap();
    dir.remove(&mut ns);
    assert_eq!(ns.entry_count(), 0);
}

#[test]
fn aux_data_is_carried_on_the_entry() {
    let mut ns = HostNamespace::new();
    let mut reg = RustProcRegistration::new(0);
    reg.register::<RustFile>(&mut ns, "data", Some(3)).unwrap();
    let entry = ns.entry(1).expect("entry is live");
    assert_eq!(entry.data, Some(3));
}
