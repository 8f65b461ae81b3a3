use codex_sidecar::shutdown::{CoordinatorState, ShutdownCoordinator, EXIT_SUCCESS};
use codex_sidecar::store::HandleSlot;

#[test]
fn close_before_put_kills_nothing_and_exits() {
    let mut slot: HandleSlot<u32> = HandleSlot::new();
    let mut c = ShutdownCoordinator::new();
    assert_eq!(c.state(), CoordinatorState::Running);
    let plan = c.on_close_requested(&mut slot);
    assert!(plan.prevent_close);
    assert_eq!(plan.kill, None);
    assert_eq!(plan.exit_code, 0);
    assert_eq!(c.state(), CoordinatorState::Terminating);
}

#[test]
fn close_after_put_kills_stored_handle_once() {
    let mut slot: HandleSlot<u32> = HandleSlot::new();
    slot.put(4242);
    let mut c = ShutdownCoordinator::new();
    let plan = c.on_close_requested(&mut slot);
    assert!(plan.prevent_close);
    assert_eq!(plan.kill, Some(4242));
    assert_eq!(plan.exit_code, EXIT_SUCCESS);
    assert!(!slot.is_occupied());
}

#[test]
fn second_close_is_noop() {
    let mut slot: HandleSlot<u32> = HandleSlot::new();
    slot.put(9);
    let mut c = ShutdownCoordinator::new();
    let first = c.on_close_requested(&mut slot);
    let second = c.on_close_requested(&mut slot);
    assert_eq!(first.kill, Some(9));
    assert_eq!(second.kill, None);
    assert!(second.prevent_close);
    assert_eq!(first.exit_code, 0);
    assert_eq!(second.exit_code, 0);
    assert_eq!(c.state(), CoordinatorState::Terminating);
    assert!(!slot.is_occupied());
}
