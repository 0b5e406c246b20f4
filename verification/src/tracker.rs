//! The hotkey state machine.
//!
//! A stream of raw key press / release events is interpreted one event at
//! a time. Two modifier roles are tracked, meta and shift; each role is a
//! single logical flag fed by two physical keys (left and right variants
//! are coalesced, so releasing either variant clears the role). A capture
//! trigger fires on a press of the dedicated capture key, always, or on a
//! press of the combo key while both roles are held.

use vstd::prelude::*;

verus! {

/// The logical keys the tracker distinguishes. Every other physical key
/// maps to `OtherKey`.
#[derive(Clone, Copy, Debug, PartialEq, Eq, Structural)]
pub enum KeyId {
    /// The dedicated capture key (print screen).
    CaptureKey,
    /// The left physical variant of the meta role.
    MetaLeft,
    /// The right physical variant of the meta role.
    MetaRight,
    /// The left physical variant of the shift role.
    ShiftLeft,
    /// The right physical variant of the shift role.
    ShiftRight,
    /// The designated alphanumeric key of the modifier-combo path.
    ComboKey,
    /// Any other key.
    OtherKey,
}

/// One keyboard event, as handed in by the platform layer. Input events
/// that are not key presses or releases (mouse, move, scroll) are
/// `OtherEvent`.
#[derive(Clone, Copy, Debug, PartialEq, Eq, Structural)]
pub enum KeyEvent {
    Press(KeyId),
    Release(KeyId),
    OtherEvent,
}

/// The signal that one capture batch should run now.
#[derive(Clone, Copy, Debug, PartialEq, Eq, Structural)]
pub struct CaptureTrigger {}

/// The modifier-key press state: one boolean per modifier role.
#[derive(Clone, Copy, Debug, PartialEq, Eq, Structural)]
pub struct CombAppleBoardPress {
    pub meta_pressed: bool,
    pub shift_pressed: bool,
}

/// Whether `k` is a physical variant of the meta role.
pub open spec fn is_meta_key(k: KeyId) -> bool {
    k == KeyId::MetaLeft || k == KeyId::MetaRight
}

/// Whether `k` is a physical variant of the shift role.
pub open spec fn is_shift_key(k: KeyId) -> bool {
    k == KeyId::ShiftLeft || k == KeyId::ShiftRight
}

/// Whether `e` is a press of a physical variant of the shift role.
pub open spec fn is_shift_press(e: KeyEvent) -> bool {
    match e {
        KeyEvent::Press(k) => is_shift_key(k),
        _ => false,
    }
}

/// The tracker state at startup: no modifier held.
pub open spec fn initial_state() -> CombAppleBoardPress {
    CombAppleBoardPress { meta_pressed: false, shift_pressed: false }
}

/// The state after one event: a press of a role key sets that role's
/// flag, a release of a role key clears it, and every other event leaves
/// the state unchanged.
pub open spec fn next_state(s: CombAppleBoardPress, e: KeyEvent) -> CombAppleBoardPress {
    match e {
        KeyEvent::Press(k) => if is_meta_key(k) {
            CombAppleBoardPress { meta_pressed: true, ..s }
        } else if is_shift_key(k) {
            CombAppleBoardPress { shift_pressed: true, ..s }
        } else {
            s
        },
        KeyEvent::Release(k) => if is_meta_key(k) {
            CombAppleBoardPress { meta_pressed: false, ..s }
        } else if is_shift_key(k) {
            CombAppleBoardPress { shift_pressed: false, ..s }
        } else {
            s
        },
        KeyEvent::OtherEvent => s,
    }
}

/// Whether the event `e`, arriving in state `s`, fires a capture trigger:
/// a press of the capture key always does, a press of the combo key does
/// exactly when both modifier roles are held, and nothing else does.
pub open spec fn emits(s: CombAppleBoardPress, e: KeyEvent) -> bool {
    match e {
        KeyEvent::Press(k) => k == KeyId::CaptureKey || (k == KeyId::ComboKey && s.meta_pressed
            && s.shift_pressed),
        _ => false,
    }
}

/// The state after a whole sequence of events, applied left to right.
pub open spec fn run(s: CombAppleBoardPress, evs: Seq<KeyEvent>) -> CombAppleBoardPress
    decreases evs.len(),
{
    if evs.len() == 0 {
        s
    } else {
        run(next_state(s, evs[0]), evs.drop_first())
    }
}

impl CombAppleBoardPress {
    /// A fresh tracker with both modifier flags clear.
    pub fn new() -> (r: Self)
        ensures
            r == initial_state(),
    {
        Self { shift_pressed: false, meta_pressed: false }
    }

    /// Set or clear the meta-role flag; the shift-role flag is untouched.
    pub fn set_meta_pressed(&mut self, pressed: bool)
        ensures
            final(self).meta_pressed == pressed,
            final(self).shift_pressed == old(self).shift_pressed,
    {
        self.meta_pressed = pressed;
    }

    /// Set or clear the shift-role flag; the meta-role flag is untouched.
    pub fn set_shift_pressed(&mut self, pressed: bool)
        ensures
            final(self).shift_pressed == pressed,
            final(self).meta_pressed == old(self).meta_pressed,
    {
        self.shift_pressed = pressed;
    }

    /// Feed one event to the tracker. The new state is `next_state` of
    /// the old one, and a trigger comes back exactly when `emits` says
    /// the event fires in the old state.
    pub fn process(&mut self, event: KeyEvent) -> (r: Option<CaptureTrigger>)
        ensures
            *final(self) == next_state(*old(self), event),
            r is Some <==> emits(*old(self), event),
    {
        match event {
            KeyEvent::Press(key) => match key {
                KeyId::CaptureKey => Some(CaptureTrigger {}),
                KeyId::MetaLeft | KeyId::MetaRight => {
                    self.set_meta_pressed(true);
                    None
                },
                KeyId::ShiftLeft | KeyId::ShiftRight => {
                    self.set_shift_pressed(true);
                    None
                },
                KeyId::ComboKey => {
                    if self.meta_pressed && self.shift_pressed {
                        Some(CaptureTrigger {})
                    } else {
                        None
                    }
                },
                KeyId::OtherKey => None,
            },
            KeyEvent::Release(key) => match key {
                KeyId::MetaLeft | KeyId::MetaRight => {
                    self.set_meta_pressed(false);
                    None
                },
                KeyId::ShiftLeft | KeyId::ShiftRight => {
                    self.set_shift_pressed(false);
                    None
                },
                _ => None,
            },
            KeyEvent::OtherEvent => None,
        }
    }
}

/// A run with no shift-role press never sets the shift flag: from a
/// state with shift clear, a sequence free of shift presses ends with
/// shift still clear.
proof fn lemma_no_shift_press_keeps_shift_clear(s: CombAppleBoardPress, evs: Seq<KeyEvent>)
    requires
        !s.shift_pressed,
        forall|j: int| 0 <= j < evs.len() ==> !is_shift_press(evs[j]),
    ensures
        !run(s, evs).shift_pressed,
    decreases evs.len(),
{
    if evs.len() > 0 {
        lemma_no_shift_press_keeps_shift_clear(next_state(s, evs[0]), evs.drop_first());
    }
}

/// A press of a modifier role alone does not complete the combo: in any
/// sequence of press events from the initial state that holds a
/// meta-role press immediately followed by the combo-key press, with no
/// shift-role press before the combo key, the combo-key press emits no
/// trigger.
pub proof fn lemma_meta_then_combo_without_shift_no_trigger(evs: Seq<KeyEvent>, i: int)
    requires
        forall|j: int| 0 <= j < evs.len() ==> #[trigger] evs[j] is Press,
        0 < i < evs.len(),
        is_meta_key(evs[i - 1]->Press_0),
        evs[i] == KeyEvent::Press(KeyId::ComboKey),
        forall|j: int| 0 <= j < i ==> !is_shift_press(evs[j]),
    ensures
        !emits(run(initial_state(), evs.take(i)), evs[i]),
{
    lemma_no_shift_press_keeps_shift_clear(initial_state(), evs.take(i));
}

/// Meta press, then shift press, then combo-key press, with no release
/// in between: whatever state the tracker starts in, the two modifier
/// presses emit no trigger and the combo-key press emits one.
pub proof fn lemma_meta_shift_combo_triggers(s: CombAppleBoardPress, m: KeyId, h: KeyId)
    requires
        is_meta_key(m),
        is_shift_key(h),
    ensures
        !emits(s, KeyEvent::Press(m)),
        !emits(next_state(s, KeyEvent::Press(m)), KeyEvent::Press(h)),
        emits(
            next_state(next_state(s, KeyEvent::Press(m)), KeyEvent::Press(h)),
            KeyEvent::Press(KeyId::ComboKey),
        ),
{
}

/// Left and right variants of a role are coalesced into one flag, so a
/// release of either variant clears the role: after a release of any
/// meta-role key, an immediate combo-key press emits no trigger, and the
/// same holds for a shift-role release.
pub proof fn lemma_release_one_variant_blocks_combo(s: CombAppleBoardPress, m: KeyId, h: KeyId)
    requires
        is_meta_key(m),
        is_shift_key(h),
    ensures
        !next_state(s, KeyEvent::Release(m)).meta_pressed,
        !emits(next_state(s, KeyEvent::Release(m)), KeyEvent::Press(KeyId::ComboKey)),
        !next_state(s, KeyEvent::Release(h)).shift_pressed,
        !emits(next_state(s, KeyEvent::Release(h)), KeyEvent::Press(KeyId::ComboKey)),
{
}

/// A press of the dedicated capture key emits a trigger in every state
/// and never changes the modifier state.
pub proof fn lemma_capture_key_always_triggers(s: CombAppleBoardPress)
    ensures
        emits(s, KeyEvent::Press(KeyId::CaptureKey)),
        next_state(s, KeyEvent::Press(KeyId::CaptureKey)) == s,
{
}

} // verus!
