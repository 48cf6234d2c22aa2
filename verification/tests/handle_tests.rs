//! Handles, the wake-up primitive and its coalescing, and the closure
//! registry bridge, driven the way a host loop drives them.

use nvim_oxi::async_handle::AsyncHandle;
use nvim_oxi::error::Error;
use nvim_oxi::handle::{Handle, HostLoop};
use nvim_oxi::registry::{ClosureRegistry, Invocation};

/// Runs the host loop until no wake is armed, counting payload
/// invocations the way the trampoline would: reconstruct the handle
/// from the raw identity, fetch the payload, null-check it, "run" it,
/// and discard any error.
fn drain_all(lp: &mut HostLoop<i64>) -> usize {
    let mut invocations = 0;
    while let Some(raw) = lp.drain_one() {
        let handle = Handle::from_raw(raw);
        if let Some(_payload) = handle.get_data(lp) {
            invocations += 1;
        }
    }
    invocations
}

#[test]
fn init_failure_registers_nothing() {
    let mut lp: HostLoop<i64> = HostLoop::new();
    let r = Handle::new(&mut lp, -7);
    assert!(matches!(r, Err(Error::InitFailed(-7))));
    assert_eq!(0, lp.len());
}

#[test]
fn async_init_failure_is_surfaced() {
    let mut lp: HostLoop<i64> = HostLoop::new();
    let r = AsyncHandle::new(&mut lp, -1, 99);
    assert!(matches!(r, Err(Error::InitFailed(-1))));
    assert_eq!(0, lp.len());
}

#[test]
fn wake_coalescing_five_sends_one_invocation() {
    let mut lp: HostLoop<i64> = HostLoop::new();
    let handle = AsyncHandle::new(&mut lp, 0, 42).unwrap();

    for _ in 0..5 {
        handle.send(&mut lp).unwrap();
    }
    assert_eq!(1, drain_all(&mut lp));

    handle.send(&mut lp).unwrap();
    assert_eq!(1, drain_all(&mut lp));
}

#[test]
fn drain_without_send_runs_nothing() {
    let mut lp: HostLoop<i64> = HostLoop::new();
    let _handle = AsyncHandle::new(&mut lp, 0, 42).unwrap();
    assert_eq!(0, drain_all(&mut lp));
}

#[test]
fn send_on_closed_handle_fails() {
    let mut lp: HostLoop<i64> = HostLoop::new();
    let handle = AsyncHandle::new(&mut lp, 0, 1).unwrap();
    handle.handle.close(&mut lp);
    assert!(matches!(
        handle.send(&mut lp),
        Err(Error::CouldntTriggerAsyncHandle)
    ));
    assert_eq!(0, drain_all(&mut lp));
}

#[test]
fn payload_is_the_same_across_repeated_trampoline_runs() {
    let mut lp: HostLoop<i64> = HostLoop::new();
    let handle = Handle::new(&mut lp, 0).unwrap();
    handle.set_data(&mut lp, 1234);

    for _ in 0..3 {
        let reconstructed = Handle::from_raw(handle.id);
        let payload = reconstructed.get_data(&lp);
        assert_eq!(Some(&1234), payload);
    }
}

#[test]
fn unattached_payload_reads_back_as_the_null_sentinel() {
    let mut lp: HostLoop<i64> = HostLoop::new();
    let handle = Handle::new(&mut lp, 0).unwrap();
    assert_eq!(None, handle.get_data(&lp));
}

#[test]
fn one_shot_reference_resolves_exactly_once() {
    let mut registry: ClosureRegistry<i64> = ClosureRegistry::new();
    let r = registry.register_one_shot(7);
    assert!(registry.resolve(r));

    match registry.invoke(r) {
        Invocation::OneShot(payload) => assert_eq!(7, payload),
        _ => panic!("a fresh one-shot reference must hand its payload out"),
    }

    // The entry is gone before the single call even runs, so a second
    // attempt fails loudly whatever the first invocation did.
    assert!(!registry.resolve(r));
    assert!(matches!(registry.invoke(r), Invocation::Stale));
}

#[test]
fn repeatable_reference_survives_invocations() {
    let mut registry: ClosureRegistry<i64> = ClosureRegistry::new();
    let r = registry.register(5);

    assert!(matches!(registry.invoke(r), Invocation::Repeatable));
    assert_eq!(Some(&5), registry.payload(r));
    assert!(matches!(registry.invoke(r), Invocation::Repeatable));
    assert!(registry.resolve(r));

    assert_eq!(Some(5), registry.unregister(r));
    assert!(!registry.resolve(r));
    assert!(matches!(registry.invoke(r), Invocation::Stale));
    assert_eq!(None, registry.unregister(r));
}

#[test]
fn references_never_handed_out_are_stale() {
    let mut registry: ClosureRegistry<i64> = ClosureRegistry::new();
    assert!(!registry.resolve(0));
    assert!(!registry.resolve(-1));
    assert!(matches!(registry.invoke(0), Invocation::Stale));
    assert!(matches!(registry.invoke(-1), Invocation::Stale));
    assert_eq!(None, registry.payload(3));
    assert_eq!(None, registry.unregister(3));
}

#[test]
fn scheduled_closure_is_one_shot() {
    let mut registry: ClosureRegistry<i64> = ClosureRegistry::new();
    let r = registry.schedule(11);
    assert!(registry.resolve(r));
    match registry.invoke(r) {
        Invocation::OneShot(payload) => assert_eq!(11, payload),
        _ => panic!("a scheduled closure must be stored one-shot"),
    }
    assert!(!registry.resolve(r));
}
