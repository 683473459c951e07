//! Tests for the subcommand protocol, the pairing tracker, the session
//! snapshot and the input pipeline.

use procon_bridge::buttons::{Button, ButtonState};
use procon_bridge::controller::{command_from_name, LedPattern, MacroCommand, MacroController};
use procon_bridge::pipeline::InputPipeline;
use procon_bridge::protocol::{
    build_empty_input_report, build_subcommand_reply, handle_subcommand, spi_read_response,
    subcommand_reply_for, PairingTracker,
};
use procon_bridge::session::{MitmState, StateSnapshot};
use procon_bridge::storage::MacroStore;

#[test]
fn test_spi_read_stick_calibration() {
    // Subcommand 0x10 with payload 3D 60 00 00 12 (SPI read of 0x603D, 18
    // bytes) is acknowledged with 0x90; the reply echoes the request header
    // and carries the factory stick calibration blob.
    let payload = [0x3D, 0x60, 0x00, 0x00, 0x12];
    let (ack, reply) = handle_subcommand(0x10, &payload);
    assert_eq!(ack, 0x90);
    assert_eq!(&reply[0..5], &payload);
    assert_eq!(reply.len(), 5 + 18);
    assert_eq!(&reply[5..], &spi_read_response(0x603D, 0x12)[..]);
}

#[test]
fn test_device_info_reply() {
    // Subcommand 0x02 yields ACK 0x82 and a 12-byte reply whose third byte
    // marks a Pro Controller.
    let (ack, reply) = handle_subcommand(0x02, &[]);
    assert_eq!(ack, 0x82);
    assert_eq!(reply.len(), 12);
    assert_eq!(reply[2], 0x03);
}

#[test]
fn test_unknown_subcommand_gets_plain_ack() {
    let (ack, reply) = handle_subcommand(0x7F, &[1, 2, 3]);
    assert_eq!(ack, 0x80);
    assert!(reply.is_empty());

    // A truncated SPI read is treated the same way
    let (ack, reply) = handle_subcommand(0x10, &[0x3D, 0x60]);
    assert_eq!(ack, 0x80);
    assert!(reply.is_empty());
}

#[test]
fn test_spi_catchall_returns_zeros() {
    let data = spi_read_response(0x6000, 0x10);
    assert_eq!(data, vec![0u8; 16]);
    let data = spi_read_response(0x1234, 5);
    assert_eq!(data, vec![0u8; 5]);
}

#[test]
fn test_subcommand_reply_framing() {
    let reply = build_subcommand_reply(7, 0x02, 0x82, &[0xAA, 0xBB]);
    assert_eq!(reply.len(), 50);
    assert_eq!(reply[0], 0xA1);
    assert_eq!(reply[1], 0x21);
    assert_eq!(reply[2], 7);
    assert_eq!(reply[3], 0x90);
    assert_eq!(&reply[7..13], &[0x00, 0x08, 0x80, 0x00, 0x08, 0x80]);
    assert_eq!(reply[13], 0xB0);
    assert_eq!(reply[14], 0x82);
    assert_eq!(reply[15], 0x02);
    assert_eq!(&reply[16..18], &[0xAA, 0xBB]);
    assert!(reply[18..].iter().all(|&b| b == 0));
}

#[test]
fn test_empty_input_report_layout() {
    let bare = build_empty_input_report(3, false);
    assert_eq!(bare[0], 0xA1);
    assert_eq!(bare[1], 0x30);
    assert_eq!(bare[2], 3);
    assert!(bare[3..].iter().all(|&b| b == 0));

    let stated = build_empty_input_report(4, true);
    assert_eq!(stated[3], 0x90);
    assert_eq!(&stated[7..13], &[0x6F, 0xC8, 0x77, 0x16, 0xD8, 0x7D]);
    assert_eq!(stated[13], 0xB0);
}

#[test]
fn test_incoming_subcommand_with_and_without_prefix() {
    // Without the 0xA2 transaction prefix the subcommand id sits at offset 10
    let mut buf = [0u8; 16];
    buf[0] = 0x01;
    buf[10] = 0x02;
    let (id, reply) = subcommand_reply_for(&buf, 0).unwrap();
    assert_eq!(id, 0x02);
    assert_eq!(reply[14], 0x82);

    // With the prefix it sits at offset 11
    let mut buf = [0u8; 16];
    buf[0] = 0xA2;
    buf[1] = 0x11;
    buf[11] = 0x48;
    let (id, reply) = subcommand_reply_for(&buf, 1).unwrap();
    assert_eq!(id, 0x48);
    assert_eq!(reply[14], 0x82);

    // Other report types carry no subcommand
    let mut buf = [0u8; 16];
    buf[0] = 0x30;
    assert!(subcommand_reply_for(&buf, 0).is_none());
}

#[test]
fn test_pairing_completes_after_vibration_and_lights() {
    let mut tracker = PairingTracker::new();
    assert!(!tracker.is_complete());

    tracker.note_subcommand(0x02);
    assert!(!tracker.is_complete());
    assert!(tracker.device_info_queried);

    tracker.note_subcommand(0x48); // vibration enabled
    assert!(!tracker.is_complete());

    tracker.note_subcommand(0x30); // player lights set
    assert!(tracker.is_complete());
}

#[test]
fn test_pop_if_changed_reports_each_change_once() {
    let mut state = MitmState::new();
    assert!(state.pop_if_changed().is_none());

    let mut snap = StateSnapshot::initial();
    snap.usb_connected = true;
    state.update(snap);

    let popped = state.pop_if_changed().expect("a change must be reported");
    assert!(popped.usb_connected);
    assert!(state.pop_if_changed().is_none());

    // Publishing an equal snapshot does not re-arm the dirty mark
    let mut same = StateSnapshot::initial();
    same.usb_connected = true;
    state.update(same);
    assert!(state.pop_if_changed().is_none());

    // Another genuine change is reported again
    let mut changed = StateSnapshot::initial();
    changed.usb_connected = true;
    changed.playing = true;
    state.update(changed);
    assert!(state.pop_if_changed().is_some());
}

fn raw_with_buttons(set: &[Button]) -> [u8; 64] {
    let mut r = [0u8; 64];
    for &btn in set {
        let (idx, mask) = btn.position();
        r[3 + idx] |= mask;
    }
    // Both sticks at the centre
    r[6] = 0x00;
    r[7] = 0x08;
    r[8] = 0x80;
    r[9] = 0x00;
    r[10] = 0x08;
    r[11] = 0x80;
    r
}

#[test]
fn test_pipeline_masks_base_chord_from_output() {
    let mut pipeline = InputPipeline::new(MacroController::new(MacroStore::new()));

    let raw = raw_with_buttons(&[Button::L3, Button::R3, Button::X]);
    let out = pipeline.process_live(&raw, 0, "");

    // The stick buttons are masked from both views; X passes through
    assert!(!out.input.buttons.l3);
    assert!(!out.input.buttons.r3);
    assert!(out.input.buttons.x);
    assert_eq!(out.raw_masked[4] & 0x80, 0); // L3 bit cleared
    assert_eq!(out.raw_masked[3] & 0x80, 0); // R3 bit cleared
    assert_eq!(out.raw_masked[3] & 0x08, 0x08); // X bit kept
    assert!(out.effect.led.is_none());
}

#[test]
fn test_pipeline_records_masked_frames() {
    let mut pipeline = InputPipeline::new(MacroController::new(MacroStore::new()));
    pipeline.controller.recorder.start(0);

    let raw = raw_with_buttons(&[Button::L3, Button::R3, Button::A]);
    // First frame arms the edge; A fires PlayMacro (no macros: no effect LED)
    pipeline.process_live(&raw, 100, "");
    assert_eq!(pipeline.controller.recorder.frames.len(), 1);
    // The captured frame has the chord masked out
    let (_, frame) = pipeline.controller.recorder.frames[0];
    assert_eq!(frame[3] & 0x80, 0);
    assert_eq!(frame[4] & 0x80, 0);
    assert_eq!(frame[3] & 0x02, 0); // A is combo-masked too
}

#[test]
fn test_pipeline_playback_stops_at_end() {
    let mut ctrl = MacroController::new(MacroStore::new());
    let f: [u8; 64] = [1; 64];
    ctrl.store.save_macro(&vec![(0, f), (1000, f)], Some("clip"), "").unwrap();
    ctrl.cached_slot_count = ctrl.store.get_slot_count();
    let mut pipeline = InputPipeline::new(ctrl);

    let eff = pipeline.process_command(
        procon_bridge::controller::MacroCommand::PlayMacro,
        0,
        "",
    );
    assert_eq!(eff.led, Some(LedPattern::Playback));
    assert!(pipeline.controller.player.playing);

    let (frame, led) = pipeline.playback_step(500);
    assert!(frame.is_some());
    assert!(led.is_none());

    // Past the end the final frame comes out and playback stops
    let (frame, _) = pipeline.playback_step(2000);
    assert!(frame.is_some());
    assert!(!pipeline.controller.player.playing);

    // Once stopped, further steps report nothing
    let (frame, led) = pipeline.playback_step(2100);
    assert!(frame.is_none());
    assert!(led.is_none());
}

#[test]
fn test_pipeline_abort_combo_stops_playback() {
    let mut ctrl = MacroController::new(MacroStore::new());
    let f: [u8; 64] = [1; 64];
    ctrl.store.save_macro(&vec![(0, f), (1_000_000, f)], Some("long"), "").unwrap();
    ctrl.cached_slot_count = ctrl.store.get_slot_count();
    let mut pipeline = InputPipeline::new(ctrl);

    pipeline.process_command(procon_bridge::controller::MacroCommand::PlayMacro, 0, "");
    assert!(pipeline.controller.player.playing);

    // Arm the chord, then a rising edge on B stops playback
    let mut held = ButtonState::default();
    held.l3 = true;
    held.r3 = true;
    assert!(pipeline.check_abort(&held, 100).is_none());
    held.b = true;
    let led = pipeline.check_abort(&held, 200);
    assert_eq!(led, Some(LedPattern::Normal));
    assert!(!pipeline.controller.player.playing);
}

#[test]
fn test_snapshot_fields() {
    let mut ctrl = MacroController::new(MacroStore::new());
    let f: [u8; 64] = [1; 64];
    ctrl.store.save_macro(&vec![(0, f)], Some("one"), "").unwrap();
    let pipeline = InputPipeline::new(ctrl);
    let snap = pipeline.snapshot(true, false);
    assert!(snap.usb_connected);
    assert!(!snap.bt_connected);
    assert!(!snap.macro_mode);
    assert_eq!(snap.playback_speed, 100);
}

#[test]
fn test_command_from_name_maps_every_word() {
    assert!(matches!(
        command_from_name("TOGGLE_MACRO_MODE", None, None, None),
        Some(MacroCommand::ToggleMacroMode)
    ));
    assert!(matches!(
        command_from_name("TOGGLE_RECORDING", None, None, None),
        Some(MacroCommand::ToggleRecording)
    ));
    assert!(matches!(command_from_name("PREV_SLOT", None, None, None), Some(MacroCommand::PrevSlot)));
    assert!(matches!(command_from_name("NEXT_SLOT", None, None, None), Some(MacroCommand::NextSlot)));
    assert!(matches!(
        command_from_name("PLAY_MACRO", None, None, None),
        Some(MacroCommand::PlayMacro)
    ));
    assert!(matches!(
        command_from_name("STOP_PLAYBACK", None, None, None),
        Some(MacroCommand::StopPlayback)
    ));
    assert!(matches!(
        command_from_name("CYCLE_SPEED", None, None, None),
        Some(MacroCommand::CycleSpeed)
    ));
    assert!(matches!(
        command_from_name("SELECT_SLOT", Some(3), None, None),
        Some(MacroCommand::SelectSlot(3))
    ));
    assert!(matches!(
        command_from_name("SET_PLAYBACK_SPEED", None, Some(50), None),
        Some(MacroCommand::SetPlaybackSpeed(50))
    ));
    assert!(matches!(
        command_from_name("DELETE_MACRO", Some(7), None, None),
        Some(MacroCommand::DeleteMacro(7))
    ));
    match command_from_name("RENAME_MACRO", Some(2), None, Some("dash")) {
        Some(MacroCommand::RenameMacro(id, name)) => {
            assert_eq!(id, 2);
            assert_eq!(name, "dash");
        }
        other => panic!("unexpected mapping: {other:?}"),
    }

    // Missing operands and unknown words map to nothing
    assert!(command_from_name("SELECT_SLOT", None, None, None).is_none());
    assert!(command_from_name("RENAME_MACRO", Some(2), None, None).is_none());
    assert!(command_from_name("REBOOT", None, None, None).is_none());
    assert!(command_from_name("", None, None, None).is_none());
}
