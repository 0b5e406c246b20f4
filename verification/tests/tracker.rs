use screengrab::tracker::{CombAppleBoardPress, KeyEvent, KeyId};

#[test]
fn starts_with_both_flags_clear() {
    let t = CombAppleBoardPress::new();
    assert!(!t.meta_pressed);
    assert!(!t.shift_pressed);
}

#[test]
fn meta_then_combo_without_shift_no_trigger() {
    let mut t = CombAppleBoardPress::new();
    assert!(t.process(KeyEvent::Press(KeyId::MetaLeft)).is_none());
    assert!(t.process(KeyEvent::Press(KeyId::ComboKey)).is_none());
}

#[test]
fn meta_right_then_combo_without_shift_no_trigger() {
    let mut t = CombAppleBoardPress::new();
    assert!(t.process(KeyEvent::Press(KeyId::MetaRight)).is_none());
    assert!(t.process(KeyEvent::Press(KeyId::ComboKey)).is_none());
}

#[test]
fn meta_shift_combo_fires_exactly_at_combo_press() {
    let mut t = CombAppleBoardPress::new();
    assert!(t.process(KeyEvent::Press(KeyId::MetaLeft)).is_none());
    assert!(t.process(KeyEvent::Press(KeyId::ShiftLeft)).is_none());
    assert!(t.process(KeyEvent::Press(KeyId::ComboKey)).is_some());
}

#[test]
fn meta_shift_combo_fires_with_right_variants() {
    let mut t = CombAppleBoardPress::new();
    assert!(t.process(KeyEvent::Press(KeyId::MetaRight)).is_none());
    assert!(t.process(KeyEvent::Press(KeyId::ShiftRight)).is_none());
    assert!(t.process(KeyEvent::Press(KeyId::ComboKey)).is_some());
}

#[test]
fn releasing_other_variant_clears_the_role() {
    // Left meta is held, yet releasing the (never pressed) right meta
    // clears the coalesced role flag, so the combo does not fire.
    let mut t = CombAppleBoardPress::new();
    assert!(t.process(KeyEvent::Press(KeyId::MetaLeft)).is_none());
    assert!(t.process(KeyEvent::Press(KeyId::ShiftLeft)).is_none());
    assert!(t.process(KeyEvent::Release(KeyId::MetaRight)).is_none());
    assert!(t.process(KeyEvent::Press(KeyId::ComboKey)).is_none());
}

#[test]
fn shift_release_also_blocks_combo() {
    let mut t = CombAppleBoardPress::new();
    assert!(t.process(KeyEvent::Press(KeyId::MetaLeft)).is_none());
    assert!(t.process(KeyEvent::Press(KeyId::ShiftRight)).is_none());
    assert!(t.process(KeyEvent::Release(KeyId::ShiftLeft)).is_none());
    assert!(t.process(KeyEvent::Press(KeyId::ComboKey)).is_none());
}

#[test]
fn capture_key_fires_regardless_of_modifiers() {
    let mut t = CombAppleBoardPress::new();
    assert!(t.process(KeyEvent::Press(KeyId::CaptureKey)).is_some());
    assert!(t.process(KeyEvent::Press(KeyId::MetaLeft)).is_none());
    assert!(t.process(KeyEvent::Press(KeyId::CaptureKey)).is_some());
    assert!(t.process(KeyEvent::Press(KeyId::ShiftLeft)).is_none());
    assert!(t.process(KeyEvent::Press(KeyId::CaptureKey)).is_some());
}

#[test]
fn capture_key_never_mutates_modifier_state() {
    let mut t = CombAppleBoardPress::new();
    t.process(KeyEvent::Press(KeyId::MetaLeft));
    t.process(KeyEvent::Press(KeyId::CaptureKey));
    assert!(t.meta_pressed);
    assert!(!t.shift_pressed);
    t.process(KeyEvent::Press(KeyId::ShiftLeft));
    t.process(KeyEvent::Press(KeyId::CaptureKey));
    assert!(t.meta_pressed);
    assert!(t.shift_pressed);
}

#[test]
fn auto_repeat_fires_once_per_delivered_press() {
    let mut t = CombAppleBoardPress::new();
    assert!(t.process(KeyEvent::Press(KeyId::CaptureKey)).is_some());
    assert!(t.process(KeyEvent::Press(KeyId::CaptureKey)).is_some());
    assert!(t.process(KeyEvent::Press(KeyId::CaptureKey)).is_some());
}

#[test]
fn other_keys_and_events_are_ignored() {
    let mut t = CombAppleBoardPress::new();
    t.process(KeyEvent::Press(KeyId::MetaLeft));
    t.process(KeyEvent::Press(KeyId::ShiftLeft));
    assert!(t.process(KeyEvent::Press(KeyId::OtherKey)).is_none());
    assert!(t.process(KeyEvent::Release(KeyId::OtherKey)).is_none());
    assert!(t.process(KeyEvent::Release(KeyId::CaptureKey)).is_none());
    assert!(t.process(KeyEvent::Release(KeyId::ComboKey)).is_none());
    assert!(t.process(KeyEvent::OtherEvent).is_none());
    // The ignored events left both flags held, so the combo still fires.
    assert!(t.process(KeyEvent::Press(KeyId::ComboKey)).is_some());
}

#[test]
fn setters_touch_only_their_own_flag() {
    let mut t = CombAppleBoardPress::new();
    t.set_meta_pressed(true);
    assert!(t.meta_pressed);
    assert!(!t.shift_pressed);
    t.set_shift_pressed(true);
    assert!(t.meta_pressed);
    assert!(t.shift_pressed);
    t.set_meta_pressed(false);
    assert!(!t.meta_pressed);
    assert!(t.shift_pressed);
}
