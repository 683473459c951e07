//! Tests for the combo detector and the suppressed-button filters.

use procon_bridge::buttons::{Button, ButtonState};
use procon_bridge::combo::{ComboAction, ComboDetector, SuppressedButtons};

fn buttons_with(set: &[Button]) -> ButtonState {
    let mut bs = ButtonState::default();
    for &btn in set {
        bs.set(btn, true);
    }
    bs
}

#[test]
fn test_no_combo_without_l3r3() {
    let mut cd = ComboDetector::new();

    // Pressing A alone does nothing
    let (action, sup) = cd.update(&buttons_with(&[Button::A]), 0);
    assert_eq!(action, None);
    assert!(sup.is_empty());

    // DpadDown alone does nothing
    let (action, sup) = cd.update(&buttons_with(&[Button::DpadDown]), 1000);
    assert_eq!(action, None);
    assert!(sup.is_empty());
}

#[test]
fn test_l3r3_suppressed() {
    let mut cd = ComboDetector::new();
    let (_, sup) = cd.update(&buttons_with(&[Button::L3, Button::R3]), 0);
    assert!(!sup.is_empty());
    assert!(sup.contains(Button::L3));
    assert!(sup.contains(Button::R3));
}

#[test]
fn test_instant_combo_play_macro() {
    let mut cd = ComboDetector::new();

    // First frame: L3+R3 (rising edge, but no combo button)
    cd.update(&buttons_with(&[Button::L3, Button::R3]), 0);

    // Second frame: L3+R3+A (A rising edge -> PlayMacro)
    let (action, sup) = cd.update(&buttons_with(&[Button::L3, Button::R3, Button::A]), 1000);
    assert_eq!(action, Some(ComboAction::PlayMacro));
    assert!(sup.contains(Button::A));
}

#[test]
fn test_instant_combo_stop_playback() {
    let mut cd = ComboDetector::new();
    cd.update(&buttons_with(&[Button::L3, Button::R3]), 0);

    let (action, _) = cd.update(&buttons_with(&[Button::L3, Button::R3, Button::B]), 1000);
    assert_eq!(action, Some(ComboAction::StopPlayback));
}

#[test]
fn test_instant_combo_prev_next_slot() {
    let mut cd = ComboDetector::new();
    cd.update(&buttons_with(&[Button::L3, Button::R3]), 0);

    let (action, _) = cd.update(&buttons_with(&[Button::L3, Button::R3, Button::DpadLeft]), 1000);
    assert_eq!(action, Some(ComboAction::PrevSlot));

    // Release DpadLeft
    cd.update(&buttons_with(&[Button::L3, Button::R3]), 2000);

    let (action, _) = cd.update(&buttons_with(&[Button::L3, Button::R3, Button::DpadRight]), 3000);
    assert_eq!(action, Some(ComboAction::NextSlot));
}

#[test]
fn test_combo_not_retriggered_on_hold() {
    let mut cd = ComboDetector::new();
    cd.update(&buttons_with(&[Button::L3, Button::R3]), 0);

    // First press: triggers
    let (action, _) = cd.update(&buttons_with(&[Button::L3, Button::R3, Button::A]), 1000);
    assert_eq!(action, Some(ComboAction::PlayMacro));

    // Held: doesn't retrigger
    let (action, _) = cd.update(&buttons_with(&[Button::L3, Button::R3, Button::A]), 2000);
    assert_eq!(action, None);
}

#[test]
fn test_toggle_recording_in_macro_mode() {
    let mut cd = ComboDetector::new();
    cd.macro_mode = true;

    // L3+R3 rising edge in macro mode -> ToggleRecording
    let (action, _) = cd.update(&buttons_with(&[Button::L3, Button::R3]), 0);
    assert_eq!(action, Some(ComboAction::ToggleRecording));
}

#[test]
fn test_no_recording_without_macro_mode() {
    let mut cd = ComboDetector::new();
    assert!(!cd.macro_mode);

    // L3+R3 rising edge without macro mode -> no recording
    let (action, _) = cd.update(&buttons_with(&[Button::L3, Button::R3]), 0);
    assert_eq!(action, None);
}

#[test]
fn test_dpad_down_hold_toggle() {
    let mut cd = ComboDetector::new();

    // Hold L3+R3+DpadDown past the hold duration
    cd.update(&buttons_with(&[Button::L3, Button::R3, Button::DpadDown]), 0);

    let (action, _) = cd.update(
        &buttons_with(&[Button::L3, Button::R3, Button::DpadDown]),
        550_000,
    );
    assert_eq!(action, Some(ComboAction::ToggleMacroMode));
}

#[test]
fn test_dpad_down_short_press_no_toggle() {
    let mut cd = ComboDetector::new();

    // Press briefly
    cd.update(&buttons_with(&[Button::L3, Button::R3, Button::DpadDown]), 0);
    let (action, _) = cd.update(
        &buttons_with(&[Button::L3, Button::R3, Button::DpadDown]),
        100_000,
    );
    assert_eq!(action, None);
}

#[test]
fn test_dpad_down_hold_fires_once_per_hold() {
    let mut cd = ComboDetector::new();
    let chord = buttons_with(&[Button::L3, Button::R3, Button::DpadDown]);

    cd.update(&chord, 0);
    let (action, _) = cd.update(&chord, 600_000);
    assert_eq!(action, Some(ComboAction::ToggleMacroMode));

    // Holding on: no second toggle, however long the chord stays down
    let (action, _) = cd.update(&chord, 1_300_000);
    assert_eq!(action, None);
    let (action, _) = cd.update(&chord, 2_000_000);
    assert_eq!(action, None);
}

#[test]
fn test_suppressed_filter_buttons() {
    let mut sup = SuppressedButtons::new();
    sup.add(Button::L3);
    sup.add(Button::R3);
    sup.add(Button::A);

    let mut bs = buttons_with(&[Button::L3, Button::R3, Button::A, Button::B]);
    sup.filter_buttons(&mut bs);

    assert!(!bs.get(Button::L3));
    assert!(!bs.get(Button::R3));
    assert!(!bs.get(Button::A));
    assert!(bs.get(Button::B)); // not suppressed
}

#[test]
fn test_suppressed_filter_raw_report() {
    let mut sup = SuppressedButtons::new();
    sup.add(Button::B); // byte0, 0x01
    sup.add(Button::L3); // byte1, 0x80
    sup.add(Button::Home); // byte2, 0x01

    let mut report = [0u8; 64];
    report[3] = 0xFF; // all byte0 buttons
    report[4] = 0xFF; // all byte1 buttons
    report[5] = 0xFF; // all byte2 buttons

    sup.filter_raw_report(&mut report);

    assert_eq!(report[3], 0xFE); // B (0x01) cleared
    assert_eq!(report[4], 0x7F); // L3 (0x80) cleared
    assert_eq!(report[5], 0xFE); // Home (0x01) cleared
}

#[test]
fn test_recording_not_triggered_with_combo_button() {
    let mut cd = ComboDetector::new();
    cd.macro_mode = true;

    // L3+R3+A: should NOT trigger recording (A takes priority)
    let (action, _) = cd.update(&buttons_with(&[Button::L3, Button::R3, Button::A]), 0);
    assert_eq!(action, Some(ComboAction::PlayMacro));
}

#[test]
fn test_base_chord_sequence_masks_and_fires() {
    // Frame 1 sets L3+R3, frame 2 adds A, frame 3 keeps holding all three:
    // (no action, {L3,R3}), (PlayMacro, {L3,R3,A}), (no action, {L3,R3,A}).
    let mut cd = ComboDetector::new();

    let (a1, s1) = cd.update(&buttons_with(&[Button::L3, Button::R3]), 0);
    assert_eq!(a1, None);
    assert!(s1.contains(Button::L3) && s1.contains(Button::R3));
    assert!(!s1.contains(Button::A));

    let (a2, s2) = cd.update(&buttons_with(&[Button::L3, Button::R3, Button::A]), 1000);
    assert_eq!(a2, Some(ComboAction::PlayMacro));
    assert!(s2.contains(Button::L3) && s2.contains(Button::R3) && s2.contains(Button::A));

    let (a3, s3) = cd.update(&buttons_with(&[Button::L3, Button::R3, Button::A]), 2000);
    assert_eq!(a3, None);
    assert!(s3.contains(Button::L3) && s3.contains(Button::R3) && s3.contains(Button::A));
}
