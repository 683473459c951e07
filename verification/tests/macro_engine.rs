//! Tests for the macro store, the recorder, the player and the controller.

use procon_bridge::controller::{LedPattern, MacroCommand, MacroController};
use procon_bridge::player::MacroPlayer;
use procon_bridge::recorder::MacroRecorder;
use procon_bridge::storage::{encode_macro_file, macro_filename, MacroStore};

fn make_controller() -> MacroController {
    MacroController::new(MacroStore::new())
}

#[test]
fn test_toggle_macro_mode_on_off() {
    let mut ctrl = make_controller();
    assert!(!ctrl.macro_mode);

    let effect = ctrl.execute(MacroCommand::ToggleMacroMode, 0, "");
    assert!(ctrl.macro_mode);
    assert_eq!(effect.led, Some(LedPattern::MacroMode));
    assert!(!effect.broadcast_macros);

    let effect = ctrl.execute(MacroCommand::ToggleMacroMode, 1000, "");
    assert!(!ctrl.macro_mode);
    assert_eq!(effect.led, Some(LedPattern::Normal));
}

#[test]
fn test_toggle_macro_mode_off_stops_recording() {
    let mut ctrl = make_controller();
    ctrl.execute(MacroCommand::ToggleMacroMode, 0, ""); // ON
    ctrl.recorder.start(0);
    assert!(ctrl.recorder.recording);

    let effect = ctrl.execute(MacroCommand::ToggleMacroMode, 1000, ""); // OFF
    assert!(!ctrl.recorder.recording);
    assert!(effect.broadcast_macros); // saved macro triggers broadcast
}

#[test]
fn test_slot_navigation_empty() {
    let mut ctrl = make_controller();
    assert_eq!(ctrl.cached_slot_count, 0);

    // PrevSlot/NextSlot do nothing with 0 macros
    ctrl.execute(MacroCommand::PrevSlot, 0, "");
    assert_eq!(ctrl.current_slot, 0);
    ctrl.execute(MacroCommand::NextSlot, 0, "");
    assert_eq!(ctrl.current_slot, 0);
}

#[test]
fn test_slot_navigation_wraps() {
    let mut ctrl = make_controller();

    // Create 3 macros by saving frames
    let frame: [u8; 64] = [0; 64];
    for _ in 0..3 {
        ctrl.store.save_macro(&vec![(0, frame), (1000, frame)], None, "");
    }
    ctrl.cached_slot_count = ctrl.store.get_slot_count();
    assert_eq!(ctrl.cached_slot_count, 3);

    // Forward wrap
    ctrl.execute(MacroCommand::NextSlot, 0, ""); // 0 -> 1
    assert_eq!(ctrl.current_slot, 1);
    ctrl.execute(MacroCommand::NextSlot, 0, ""); // 1 -> 2
    assert_eq!(ctrl.current_slot, 2);
    ctrl.execute(MacroCommand::NextSlot, 0, ""); // 2 -> 0
    assert_eq!(ctrl.current_slot, 0);

    // Backward wrap
    ctrl.execute(MacroCommand::PrevSlot, 0, ""); // 0 -> 2
    assert_eq!(ctrl.current_slot, 2);
}

#[test]
fn test_toggle_recording() {
    let mut ctrl = make_controller();

    // Start recording
    let effect = ctrl.execute(MacroCommand::ToggleRecording, 0, "");
    assert!(ctrl.recorder.recording);
    assert_eq!(effect.led, Some(LedPattern::Recording));
    assert!(!effect.broadcast_macros);

    // Stop recording
    let effect = ctrl.execute(MacroCommand::ToggleRecording, 1000, "");
    assert!(!ctrl.recorder.recording);
    assert_eq!(effect.led, Some(LedPattern::MacroMode));
    assert!(effect.broadcast_macros);
}

#[test]
fn test_select_slot_bounds() {
    let mut ctrl = make_controller();

    // Out of bounds does nothing
    ctrl.execute(MacroCommand::SelectSlot(5), 0, "");
    assert_eq!(ctrl.current_slot, 0);

    // Create a macro
    let frame: [u8; 64] = [0; 64];
    ctrl.store.save_macro(&vec![(0, frame)], None, "");
    ctrl.cached_slot_count = ctrl.store.get_slot_count();

    ctrl.execute(MacroCommand::SelectSlot(0), 0, "");
    assert_eq!(ctrl.current_slot, 0);
}

#[test]
fn test_delete_macro_adjusts_slot() {
    let mut ctrl = make_controller();

    // Create 2 macros
    let frame: [u8; 64] = [0; 64];
    let _id1 = ctrl.store.save_macro(&vec![(0, frame)], None, "").unwrap();
    let id2 = ctrl.store.save_macro(&vec![(0, frame)], None, "").unwrap();
    ctrl.cached_slot_count = ctrl.store.get_slot_count();
    ctrl.current_slot = 1;

    // Delete second macro -- slot should adjust down
    let effect = ctrl.execute(MacroCommand::DeleteMacro(id2), 0, "");
    assert!(effect.broadcast_macros);
    assert_eq!(ctrl.current_slot, 0);
    assert_eq!(ctrl.cached_slot_count, 1);
}

#[test]
fn test_rename_macro() {
    let mut ctrl = make_controller();

    let frame: [u8; 64] = [0; 64];
    let id = ctrl.store.save_macro(&vec![(0, frame)], Some("old_name"), "").unwrap();
    ctrl.cached_slot_count = ctrl.store.get_slot_count();

    let effect = ctrl.execute(MacroCommand::RenameMacro(id, "new_name".to_string()), 0, "");
    assert!(effect.broadcast_macros);

    let info = ctrl.store.get_macro_info(id).unwrap();
    assert_eq!(info.name, "new_name");
}

#[test]
fn test_stop_playback_not_playing() {
    let mut ctrl = make_controller();
    let effect = ctrl.execute(MacroCommand::StopPlayback, 0, "");
    assert!(effect.led.is_none());
}

#[test]
fn test_cycle_speed() {
    let mut ctrl = make_controller();
    assert_eq!(ctrl.player.speed, 100);

    ctrl.execute(MacroCommand::CycleSpeed, 0, "");
    assert_eq!(ctrl.player.speed, 200);

    ctrl.execute(MacroCommand::CycleSpeed, 0, "");
    assert_eq!(ctrl.player.speed, 400);
}

#[test]
fn test_set_playback_speed() {
    let mut ctrl = make_controller();

    ctrl.execute(MacroCommand::SetPlaybackSpeed(50), 0, "");
    assert_eq!(ctrl.player.speed, 50);

    // Clamped to max
    ctrl.execute(MacroCommand::SetPlaybackSpeed(10_000), 0, "");
    assert_eq!(ctrl.player.speed, 400);
}

#[test]
fn test_new_defaults_to_1x_speed() {
    let player = MacroPlayer::new();
    assert_eq!(player.speed, 100);
}

#[test]
fn test_set_speed_clamps_to_range() {
    let mut player = MacroPlayer::new();

    player.set_speed(1000);
    assert_eq!(player.speed, 400);

    player.set_speed(1);
    assert_eq!(player.speed, 25);

    player.set_speed(200);
    assert_eq!(player.speed, 200);
}

#[test]
fn test_cycle_speed_wraps() {
    let mut player = MacroPlayer::new();
    // Start at real time
    assert_eq!(player.speed, 100);

    player.cycle_speed(); // -> 2x
    assert_eq!(player.speed, 200);

    player.cycle_speed(); // -> 4x
    assert_eq!(player.speed, 400);

    player.cycle_speed(); // -> quarter (wrap)
    assert_eq!(player.speed, 25);

    player.cycle_speed(); // -> half
    assert_eq!(player.speed, 50);

    player.cycle_speed(); // -> real time
    assert_eq!(player.speed, 100);
}

#[test]
fn test_cycle_speed_from_unknown_defaults_to_after_1x() {
    let mut player = MacroPlayer::new();
    // Set to a non-preset value
    player.speed = 150;
    // Should resume the cycle after real time, at double speed
    player.cycle_speed();
    assert_eq!(player.speed, 200);
}

#[test]
fn test_save_jump_macro_layout() {
    // Saving [(0, F), (1000, F), (2000, F)] as "jump" into an empty store:
    // first id is 1, filename 001_jump.bin, file length 16 + 3*72 = 232,
    // header frame count 3 and duration 2000 microseconds.
    let mut store = MacroStore::new();
    let f: [u8; 64] = [7; 64];
    let id = store.save_macro(&vec![(0, f), (1000, f), (2000, f)], Some("jump"), "").unwrap();
    assert_eq!(id, 1);

    let entry = store.get_macro_info(1).unwrap();
    assert_eq!(entry.filename, "001_jump.bin");
    assert_eq!(entry.frame_count, 3);
    assert_eq!(entry.duration_ms, 2); // 2000 microseconds

    let file = store.get_file_by_id(1).unwrap();
    assert_eq!(file.len(), 232);
    assert_eq!(&file[0..4], b"MAC2");
    assert_eq!(&file[8..12], &3u32.to_le_bytes());
    assert_eq!(&file[12..16], &2000u32.to_le_bytes());
}

#[test]
fn test_save_list_load_by_slot_roundtrip() {
    let mut store = MacroStore::new();
    let f: [u8; 64] = [9; 64];
    let id = store.save_macro(&vec![(0, f), (500, f)], Some("demo"), "ts0").unwrap();

    let list = store.list_macros();
    assert_eq!(list.len(), 1);
    assert_eq!(store.get_macro_id_by_slot(0), Some(id));

    let file = store.get_file_by_id(id).unwrap();
    assert_eq!(file.len(), 16 + 2 * 72);

    let mut player = MacroPlayer::new();
    assert!(player.load(file.clone()));
    assert_eq!(player.frame_count, 2);
}

#[test]
fn test_save_empty_recording_returns_no_id() {
    let mut store = MacroStore::new();
    assert_eq!(store.save_macro(&vec![], None, ""), None);
    assert_eq!(store.get_slot_count(), 0);
}

#[test]
fn test_rename_and_delete_unknown_id() {
    let mut store = MacroStore::new();
    assert!(!store.rename_macro(42, "nothing"));
    assert!(!store.delete_macro(42));
}

#[test]
fn test_default_names_and_filenames() {
    assert_eq!(macro_filename(1, "jump"), "001_jump.bin");
    assert_eq!(macro_filename(12, "x"), "012_x.bin");
    assert_eq!(macro_filename(123, "y"), "123_y.bin");
    assert_eq!(macro_filename(4321, "z"), "4321_z.bin");

    let mut store = MacroStore::new();
    let f: [u8; 64] = [0; 64];
    let id = store.save_macro(&vec![(0, f)], None, "").unwrap();
    let entry = store.get_macro_info(id).unwrap();
    assert_eq!(entry.name, "macro_1");
    assert_eq!(entry.filename, "001_macro_1.bin");
}

#[test]
fn test_recorder_capture_and_save() {
    let mut rec = MacroRecorder::new();
    let mut store = MacroStore::new();
    let f: [u8; 64] = [3; 64];

    // Frames are ignored while idle
    rec.add_frame(&f, 50);
    let (count, _) = rec.stop();
    assert_eq!(count, 0);

    rec.start(1000);
    rec.add_frame(&f, 1000);
    rec.add_frame(&f, 2500);
    let (count, duration_us) = rec.stop();
    assert_eq!(count, 2);
    assert_eq!(duration_us, 1500);

    let id = rec.save(&mut store, Some("clip"), "now").unwrap();
    let entry = store.get_macro_info(id).unwrap();
    assert_eq!(entry.frame_count, 2);
    assert_eq!(entry.duration_ms, 1); // 1500 microseconds
    assert_eq!(entry.created, "now");

    // The buffer is cleared after a save
    let id2 = rec.save(&mut store, None, "");
    assert_eq!(id2, None);
}

#[test]
fn test_player_emits_final_frame_once() {
    // A macro whose last frame has timestamp 2000: once 2000 microseconds
    // have elapsed at real-time speed the player stops, emitting the final
    // frame exactly once.
    let f1: [u8; 64] = [1; 64];
    let f2: [u8; 64] = [2; 64];
    let data = encode_macro_file(&vec![(0, f1), (2000, f2)]);

    let mut player = MacroPlayer::new();
    assert!(player.load(data));
    assert!(player.start(false, 10_000));
    assert!(player.playing);

    // Halfway: the first frame has been crossed
    assert_eq!(player.get_frame(10_500), Some(f1));
    assert!(player.playing);

    // Past the end: the final frame comes out once and playback stops
    assert_eq!(player.get_frame(12_100), Some(f2));
    assert!(!player.playing);
    assert_eq!(player.get_frame(12_200), None);
}

#[test]
fn test_player_load_rejects_bad_magic() {
    let mut player = MacroPlayer::new();
    assert!(!player.load(vec![0u8; 8])); // too short
    let mut bad = vec![0u8; 32];
    bad[0] = b'X';
    assert!(!player.load(bad)); // wrong magic

    // The legacy magic is accepted
    let mut legacy = encode_macro_file(&vec![(0, [0u8; 64])]);
    legacy[3] = b'O';
    assert!(player.load(legacy));
}

#[test]
fn test_play_macro_command_starts_playback() {
    let mut ctrl = make_controller();
    let f: [u8; 64] = [5; 64];
    ctrl.store.save_macro(&vec![(0, f), (100, f)], Some("run"), "").unwrap();
    ctrl.cached_slot_count = ctrl.store.get_slot_count();

    let effect = ctrl.execute(MacroCommand::PlayMacro, 42, "");
    assert_eq!(effect.led, Some(LedPattern::Playback));
    assert!(ctrl.player.playing);
    assert_eq!(ctrl.player.frame_count, 2);

    let effect = ctrl.execute(MacroCommand::StopPlayback, 50, "");
    assert_eq!(effect.led, Some(LedPattern::Normal));
    assert!(!ctrl.player.playing);
}

#[test]
fn test_from_parts_drops_invalid_entries() {
    // A valid pair survives; a duplicate id, a filename of the wrong form,
    // and an entry without a file are all dropped, so whatever a directory
    // held, the rebuilt store satisfies the store invariant.
    let good = procon_bridge::storage::MacroEntry {
        id: 1,
        name: "jump".to_string(),
        filename: "001_jump.bin".to_string(),
        frame_count: 1,
        duration_ms: 0,
        created: String::new(),
    };
    let duplicate = procon_bridge::storage::MacroEntry {
        id: 1,
        name: "again".to_string(),
        filename: "001_again.bin".to_string(),
        frame_count: 1,
        duration_ms: 0,
        created: String::new(),
    };
    let misnamed = procon_bridge::storage::MacroEntry {
        id: 2,
        name: "run".to_string(),
        filename: "2-run.bin".to_string(),
        frame_count: 1,
        duration_ms: 0,
        created: String::new(),
    };
    let fileless = procon_bridge::storage::MacroEntry {
        id: 3,
        name: "walk".to_string(),
        filename: "003_walk.bin".to_string(),
        frame_count: 1,
        duration_ms: 0,
        created: String::new(),
    };
    let store = MacroStore::from_parts(
        vec![good, duplicate, misnamed, fileless],
        vec![vec![1, 2, 3], vec![4], vec![5]],
    );
    assert_eq!(store.get_slot_count(), 1);
    assert_eq!(store.get_macro_id_by_slot(0), Some(1));
    assert_eq!(store.get_macro_info(1).unwrap().name, "jump");
    assert_eq!(store.get_file_by_id(1).unwrap(), &vec![1, 2, 3]);
}
