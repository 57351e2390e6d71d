use zotexon::export::trigger::{Taken, TriggerKind, TriggerSlot};

#[test]
fn slot_of_a_trigger_that_never_signals_has_ended() {
    let mut trigger = TriggerSlot::none();
    assert_eq!(trigger.take(), Taken::Ended);
}

#[test]
fn signals_that_find_the_slot_taken_are_dropped() {
    let mut slot = TriggerSlot::new();
    assert!(slot.try_send());
    assert!(!slot.try_send());
    assert!(!slot.try_send());
    assert_eq!(slot.take(), Taken::Signal);
    assert_eq!(slot.take(), Taken::Empty);
}

#[test]
fn free_slot_takes_the_next_signal() {
    let mut slot = TriggerSlot::new();
    assert_eq!(slot.take(), Taken::Empty);
    assert!(slot.try_send());
    assert_eq!(slot.take(), Taken::Signal);
    assert!(slot.try_send());
    assert_eq!(slot.take(), Taken::Signal);
}

#[test]
fn closed_slot_hands_out_what_is_pending_and_then_ends() {
    let mut slot = TriggerSlot::new();
    assert!(slot.try_send());
    slot.close();
    assert!(!slot.try_send());
    assert_eq!(slot.take(), Taken::Signal);
    assert_eq!(slot.take(), Taken::Ended);
    assert!(!slot.try_send());
    assert_eq!(slot.take(), Taken::Ended);
}

#[test]
fn what_drives_the_export() {
    assert_eq!(TriggerKind::select(true, None), TriggerKind::Push);
    assert_eq!(TriggerKind::select(true, Some(60)), TriggerKind::Push);
    assert_eq!(
        TriggerKind::select(false, Some(60)),
        TriggerKind::Periodic { seconds: 60 }
    );
    assert_eq!(TriggerKind::select(false, Some(0)), TriggerKind::Never);
    assert_eq!(TriggerKind::select(false, None), TriggerKind::Never);
}
