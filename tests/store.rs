use codex_sidecar::store::HandleSlot;

#[test]
fn put_then_take_empties_slot() {
    let mut slot: HandleSlot<u32> = HandleSlot::new();
    assert!(!slot.is_occupied());
    assert_eq!(slot.put(7), None);
    assert!(slot.is_occupied());
    assert_eq!(slot.take(), Some(7));
    assert!(!slot.is_occupied());
    assert_eq!(slot.take(), None);
}

#[test]
fn take_from_new_slot_is_none() {
    let mut slot: HandleSlot<String> = HandleSlot::new();
    assert_eq!(slot.take(), None);
}

#[test]
fn put_replaces_previous_handle() {
    let mut slot: HandleSlot<u32> = HandleSlot::new();
    assert_eq!(slot.put(1), None);
    assert_eq!(slot.put(2), Some(1));
    assert_eq!(slot.take(), Some(2));
    assert_eq!(slot.take(), None);
}
