//! Taking the shared resources for an activation and putting them back.

use nam_plug::activation::ActivateRollbackGuard;
use nam_plug::params::OversampleFactor;
use nam_plug::shared::{GuiSharedState, PendingRestartOs};

#[test]
fn test_defuse_success() {
    let mut shared = GuiSharedState::new_test();
    let mut guard = ActivateRollbackGuard::new();
    let (_param_tx, param_rx) = rtrb::RingBuffer::new(8);
    let (gc_tx, _gc_rx) = rtrb::RingBuffer::new(8);
    let (_slimmable_tx, slimmable_rx) = rtrb::RingBuffer::new(8);

    guard.param_rx = Some(param_rx);
    guard.gc_tx = Some(gc_tx);
    guard.slimmable_rx = Some(slimmable_rx);

    let resources = guard.defuse(&mut shared.cold);
    assert!(resources.is_ok());
}

#[test]
fn test_defuse_missing_resource_returns_error() {
    let mut shared = GuiSharedState::new_test();
    let guard = ActivateRollbackGuard::new();
    let result = guard.defuse(&mut shared.cold);
    assert!(result.is_err());
}

#[test]
fn test_drop_rollback_restores_all_resources() {
    let mut shared = GuiSharedState::new_test();
    shared.cold.param_rx = None;
    shared.cold.gc_tx = None;
    shared.cold.slimmable_rx = None;
    {
        let mut guard = ActivateRollbackGuard::new();
        let (_param_tx, param_rx) = rtrb::RingBuffer::new(8);
        let (gc_tx, _gc_rx) = rtrb::RingBuffer::new(8);
        let (_slimmable_tx, slimmable_rx) = rtrb::RingBuffer::new(8);

        guard.param_rx = Some(param_rx);
        guard.gc_tx = Some(gc_tx);
        guard.slimmable_rx = Some(slimmable_rx);
        guard.pending_restart_os_factor = Some(PendingRestartOs::Pending(OversampleFactor::X4));

        // An error before the guard is defused.
        guard.rollback(&mut shared.cold);
    }

    // Verify that pending_restart_os_factor was restored (encoded).
    assert_eq!(
        PendingRestartOs::load(&shared.cold.pending_restart_os_factor),
        PendingRestartOs::Pending(OversampleFactor::X4)
    );
    // Verify channels are back.
    assert!(shared.cold.param_rx.is_some());
    assert!(shared.cold.gc_tx.is_some());
    assert!(shared.cold.slimmable_rx.is_some());
}

#[test]
fn defuse_names_the_first_missing_end_and_loses_none() {
    let mut shared = GuiSharedState::new_test();
    let guard = ActivateRollbackGuard::new();
    assert_eq!(
        guard.defuse(&mut shared.cold).err(),
        Some("param_rx must be set before defuse")
    );

    let mut guard = ActivateRollbackGuard::new();
    guard.param_rx = shared.cold.param_rx.take();
    assert_eq!(
        guard.defuse(&mut shared.cold).err(),
        Some("gc_tx must be set before defuse")
    );
    assert!(shared.cold.param_rx.is_some());

    let mut guard = ActivateRollbackGuard::new();
    guard.param_rx = shared.cold.param_rx.take();
    guard.gc_tx = shared.cold.gc_tx.take();
    assert_eq!(
        guard.defuse(&mut shared.cold).err(),
        Some("slimmable_rx must be set before defuse")
    );
    assert!(shared.cold.param_rx.is_some());
    assert!(shared.cold.gc_tx.is_some());
}

#[test]
fn extraction_is_all_or_nothing() {
    let mut shared = GuiSharedState::new_test();
    PendingRestartOs::Pending(OversampleFactor::X2)
        .store(&mut shared.cold.pending_restart_os_factor);
    let rx = shared.cold.slimmable_rx.take();
    assert_eq!(
        ActivateRollbackGuard::extract(&mut shared.cold).err(),
        Some("slimmable_rx consumer has already been extracted")
    );
    assert!(shared.cold.param_rx.is_some());
    assert!(shared.cold.gc_tx.is_some());
    assert_eq!(shared.cold.pending_restart_os_factor, 2);

    shared.cold.slimmable_rx = rx;
    let guard = match ActivateRollbackGuard::extract(&mut shared.cold) {
        Ok(guard) => guard,
        Err(e) => panic!("all ends are there: {e}"),
    };
    assert!(shared.cold.param_rx.is_none());
    assert_eq!(shared.cold.pending_restart_os_factor, 0);
    assert_eq!(
        ActivateRollbackGuard::extract(&mut shared.cold).err(),
        Some("param_rx consumer has already been extracted")
    );
    guard.rollback(&mut shared.cold);
    assert_eq!(shared.cold.pending_restart_os_factor, 2);

    let gc = shared.cold.gc_tx.take();
    assert_eq!(
        ActivateRollbackGuard::extract(&mut shared.cold).err(),
        Some("gc_tx producer has already been extracted")
    );
    assert!(gc.is_some());
    assert!(shared.cold.param_rx.is_some());
}

#[test]
fn pending_restart_encoding() {
    assert_eq!(PendingRestartOs::NotPending.encode(), 0);
    assert_eq!(PendingRestartOs::Pending(OversampleFactor::Off).encode(), 1);
    assert_eq!(PendingRestartOs::Pending(OversampleFactor::X2).encode(), 2);
    assert_eq!(PendingRestartOs::Pending(OversampleFactor::X4).encode(), 3);
    for raw in 0..4u32 {
        assert_eq!(PendingRestartOs::decode(raw).encode(), raw);
    }
    assert_eq!(PendingRestartOs::decode(4), PendingRestartOs::NotPending);
    let mut cell = 1;
    assert_eq!(
        PendingRestartOs::take(&mut cell),
        PendingRestartOs::Pending(OversampleFactor::Off)
    );
    assert_eq!(cell, 0);
}
