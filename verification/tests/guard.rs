use rustproc::guard::GuardedResource;

#[test]
fn counter_under_the_lock_loses_no_update() {
    let counter: GuardedResource<u64> = GuardedResource::new(0);
    let n = 100u64;
    for _ in 0..n {
        // Each step is one complete read-modify-write under the lock.
        let _ = counter.with_lock(|v: u64| (v + 1, ()));
    }
    assert_eq!(counter.into_inner(), n);
}

#[test]
fn with_lock_returns_the_step_output() {
    let cell: GuardedResource<u64> = GuardedResource::new(41);
    let old = cell.with_lock(|v: u64| (v + 1, v));
    assert_eq!(old, 41);
    assert_eq!(cell.into_inner(), 42);
}

#[test]
fn state_survives_a_failing_computation_step() {
    let cell: GuardedResource<u64> = GuardedResource::new(7);
    // A step may report failure through its output; the lock is released
    // and the state it handed back is kept either way.
    let r: Result<u64, ()> = cell.with_lock(|v: u64| (v, Err(())));
    assert!(r.is_err());
    assert_eq!(cell.into_inner(), 7);
}
