//! The input pipeline: the decisions the USB processing worker makes for
//! every HID report.
//!
//! The pipeline owns the combo detector and the macro controller. For each
//! live frame it runs combo detection, executes any combo action, masks the
//! suppressed buttons from both the parsed state and the raw report, and
//! feeds the masked report to the recorder. During playback it advances the
//! player and watches the live input for the stop chord. The caller does
//! the I/O around it: it reads reports, calibrates sticks, builds and sends
//! the outgoing reports, and applies the returned effects.

use vstd::prelude::*;

use crate::buttons::{Button, ButtonState};
use crate::combo::{
    spec_action, spec_base_held, spec_next_timer, spec_suppressed, ComboAction, ComboDetector,
};
use crate::controller::{
    spec_controller_wf, spec_delete_post, spec_mode_led, spec_next_slot, spec_play_macro_post,
    spec_prev_slot, spec_rename_post, spec_slot_move_post, spec_speed_post,
    spec_stop_playback_post, spec_toggle_macro_mode_post, spec_toggle_recording_post, LedPattern,
    MacroCommand, MacroController, MacroEffect,
};
use crate::input::{
    parse_hid_report, spec_parse_buttons, spec_remap_trigger, spec_unpack_12bit, InputState,
};
use crate::player::{spec_clamped_speed, spec_get_frame_post, spec_next_speed};
use crate::recorder::spec_next_frame_ts;
use crate::session::StateSnapshot;

verus! {

/// What the controller does for one combo action: the action's command post
/// relates the controller before and after, together with the effect.
pub open spec fn spec_action_post(
    act: ComboAction,
    pre: MacroController,
    now_us: u64,
    created: Seq<char>,
    post: MacroController,
    eff: MacroEffect,
) -> bool {
    match act {
        ComboAction::ToggleMacroMode => spec_toggle_macro_mode_post(pre, now_us, created, post, eff),
        ComboAction::ToggleRecording => spec_toggle_recording_post(pre, now_us, created, post, eff),
        ComboAction::PrevSlot => spec_slot_move_post(
            pre,
            spec_prev_slot(pre.current_slot as int, pre.cached_slot_count as int),
            pre.cached_slot_count > 0,
            post,
            eff,
        ),
        ComboAction::NextSlot => spec_slot_move_post(
            pre,
            spec_next_slot(pre.current_slot as int, pre.cached_slot_count as int),
            pre.cached_slot_count > 0,
            post,
            eff,
        ),
        ComboAction::PlayMacro => spec_play_macro_post(pre, now_us, post, eff),
        ComboAction::StopPlayback => spec_stop_playback_post(pre, post, eff),
    }
}

/// Capturing one masked report after a command: every part of the
/// controller but the recorder's buffer is untouched; while recording (and
/// the buffer has room) the masked report is appended with the next
/// timestamp.
pub open spec fn spec_after_record(
    mid: MacroController,
    raw: [u8; 64],
    now_us: u64,
    post: MacroController,
) -> bool {
    &&& post.macro_mode == mid.macro_mode
    &&& post.player == mid.player
    &&& post.store == mid.store
    &&& post.current_slot == mid.current_slot
    &&& post.cached_slot_count == mid.cached_slot_count
    &&& post.cached_macro_name == mid.cached_macro_name
    &&& post.recorder.recording == mid.recorder.recording
    &&& post.recorder.start_us == mid.recorder.start_us
    &&& if mid.recorder.recording && mid.recorder.frames@.len() < 0xFFFFFFFF {
        post.recorder.frames@ == mid.recorder.frames@.push(
            (spec_next_frame_ts(mid.recorder, now_us), raw),
        )
    } else {
        post.recorder.frames@ == mid.recorder.frames@
    }
}

/// The wire mask of the suppressed buttons that live in button byte 0.
pub open spec fn spec_live_mask0(b: ButtonState) -> u8 {
    ((if spec_suppressed(b, Button::B) {
        1int
    } else {
        0
    }) + (if spec_suppressed(b, Button::A) {
        2int
    } else {
        0
    }) + (if spec_suppressed(b, Button::Y) {
        4int
    } else {
        0
    }) + (if spec_suppressed(b, Button::X) {
        8int
    } else {
        0
    }) + (if spec_suppressed(b, Button::R) {
        0x10int
    } else {
        0
    }) + (if spec_suppressed(b, Button::ZR) {
        0x20int
    } else {
        0
    }) + (if spec_suppressed(b, Button::Plus) {
        0x40int
    } else {
        0
    }) + (if spec_suppressed(b, Button::R3) {
        0x80int
    } else {
        0
    })) as u8
}

/// The wire mask of the suppressed buttons that live in button byte 1.
pub open spec fn spec_live_mask1(b: ButtonState) -> u8 {
    ((if spec_suppressed(b, Button::DpadDown) {
        1int
    } else {
        0
    }) + (if spec_suppressed(b, Button::DpadRight) {
        2int
    } else {
        0
    }) + (if spec_suppressed(b, Button::DpadLeft) {
        4int
    } else {
        0
    }) + (if spec_suppressed(b, Button::DpadUp) {
        8int
    } else {
        0
    }) + (if spec_suppressed(b, Button::L) {
        0x10int
    } else {
        0
    }) + (if spec_suppressed(b, Button::ZL) {
        0x20int
    } else {
        0
    }) + (if spec_suppressed(b, Button::Minus) {
        0x40int
    } else {
        0
    }) + (if spec_suppressed(b, Button::L3) {
        0x80int
    } else {
        0
    })) as u8
}

/// The wire mask of the suppressed buttons that live in button byte 2.
pub open spec fn spec_live_mask2(b: ButtonState) -> u8 {
    ((if spec_suppressed(b, Button::Home) {
        1int
    } else {
        0
    }) + (if spec_suppressed(b, Button::Capture) {
        2int
    } else {
        0
    })) as u8
}


/// With a suppressed set that holds exactly the suppressed buttons, the
/// byte masks computed from the set equal the masks computed from the
/// button state.
proof fn lemma_masks_agree(s: Seq<Button>, b: ButtonState)
    requires
        forall|btn: Button| #[trigger] s.contains(btn) == spec_suppressed(b, btn),
    ensures
        crate::combo::spec_sup_mask0(s) == spec_live_mask0(b),
        crate::combo::spec_sup_mask1(s) == spec_live_mask1(b),
        crate::combo::spec_sup_mask2(s) == spec_live_mask2(b),
{
}

/// The outcome of processing one live frame.
pub struct LiveOutcome {
    /// The parsed input with the suppressed buttons cleared; sticks and
    /// triggers are untouched.
    pub input: InputState,
    /// The raw report with the suppressed buttons' wire bits cleared, as it
    /// goes to the recorder.
    pub raw_masked: [u8; 64],
    /// The side effects of any combo action that fired.
    pub effect: MacroEffect,
}

/// The input pipeline: combo detection plus the macro controller.
pub struct InputPipeline {
    pub combo: ComboDetector,
    pub controller: MacroController,
}

impl InputPipeline {
    /// Build a pipeline over a controller; the combo detector starts with
    /// the controller's macro-mode flag.
    pub fn new(controller: MacroController) -> (r: Self)
        ensures
            r.controller == controller,
            r.combo.macro_mode == controller.macro_mode,
            r.combo.dpad_down_start is None,
            r.combo.prev_buttons == ButtonState::spec_none_pressed(),
            !r.combo.prev_base_held,
    {
        let mut combo = ComboDetector::new();
        combo.macro_mode = controller.macro_mode;
        InputPipeline { combo, controller }
    }

    /// Execute one command (from the web interface or elsewhere) and keep
    /// the combo detector's macro-mode flag in step with the controller's.
    pub fn process_command(&mut self, cmd: MacroCommand, now_us: u64, created: &str) -> (r:
        MacroEffect)
        requires
            spec_controller_wf(old(self).controller),
        ensures
            spec_controller_wf(final(self).controller),
            final(self).combo.macro_mode == final(self).controller.macro_mode,
            final(self).combo.dpad_down_start == old(self).combo.dpad_down_start,
            final(self).combo.prev_buttons == old(self).combo.prev_buttons,
            final(self).combo.prev_base_held == old(self).combo.prev_base_held,
            match cmd {
                MacroCommand::ToggleMacroMode => spec_toggle_macro_mode_post(
                    old(self).controller,
                    now_us,
                    created@,
                    final(self).controller,
                    r,
                ),
                MacroCommand::ToggleRecording => spec_toggle_recording_post(
                    old(self).controller,
                    now_us,
                    created@,
                    final(self).controller,
                    r,
                ),
                MacroCommand::PrevSlot => spec_slot_move_post(
                    old(self).controller,
                    spec_prev_slot(
                        old(self).controller.current_slot as int,
                        old(self).controller.cached_slot_count as int,
                    ),
                    old(self).controller.cached_slot_count > 0,
                    final(self).controller,
                    r,
                ),
                MacroCommand::NextSlot => spec_slot_move_post(
                    old(self).controller,
                    spec_next_slot(
                        old(self).controller.current_slot as int,
                        old(self).controller.cached_slot_count as int,
                    ),
                    old(self).controller.cached_slot_count > 0,
                    final(self).controller,
                    r,
                ),
                MacroCommand::SelectSlot(slot) => spec_slot_move_post(
                    old(self).controller,
                    if slot < old(self).controller.cached_slot_count {
                        slot as int
                    } else {
                        old(self).controller.current_slot as int
                    },
                    slot < old(self).controller.cached_slot_count,
                    final(self).controller,
                    r,
                ),
                MacroCommand::PlayMacro => spec_play_macro_post(
                    old(self).controller,
                    now_us,
                    final(self).controller,
                    r,
                ),
                MacroCommand::StopPlayback => spec_stop_playback_post(
                    old(self).controller,
                    final(self).controller,
                    r,
                ),
                MacroCommand::RenameMacro(id, name) => spec_rename_post(
                    old(self).controller,
                    id,
                    name@,
                    final(self).controller,
                    r,
                ),
                MacroCommand::DeleteMacro(id) => spec_delete_post(
                    old(self).controller,
                    id,
                    final(self).controller,
                    r,
                ),
                MacroCommand::CycleSpeed => spec_speed_post(
                    old(self).controller,
                    spec_next_speed(old(self).controller.player.speed),
                    final(self).controller,
                    r,
                ),
                MacroCommand::SetPlaybackSpeed(speed) => spec_speed_post(
                    old(self).controller,
                    spec_clamped_speed(speed),
                    final(self).controller,
                    r,
                ),
            },
    {
        let eff = self.controller.execute(cmd, now_us, created);
        self.combo.macro_mode = self.controller.macro_mode;
        eff
    }

    /// Process one live HID report at monotonic time `now_us`: parse it,
    /// run combo detection, execute any action, mask the suppressed
    /// buttons from the parsed state and the raw bytes, and capture the
    /// masked report while recording. The caller builds the outgoing
    /// Bluetooth report from the returned input.
    /// Run combo detection for one frame and execute any action it emits,
    /// keeping the combo detector's macro-mode flag in step.
    fn combo_and_execute(&mut self, buttons: &ButtonState, now_us: u64, created: &str) -> (r: (
        MacroEffect,
        crate::combo::SuppressedButtons,
    ))
        requires
            spec_controller_wf(old(self).controller),
        ensures
            spec_controller_wf(final(self).controller),
            forall|btn: Button| #[trigger]
                r.1@.contains(btn) == spec_suppressed(*buttons, btn),
            final(self).combo.dpad_down_start == spec_next_timer(
                old(self).combo,
                *buttons,
                now_us,
            ),
            final(self).combo.prev_buttons == *buttons,
            final(self).combo.prev_base_held == spec_base_held(*buttons),
            final(self).combo.macro_mode == final(self).controller.macro_mode,
            match spec_action(old(self).combo, *buttons, now_us) {
                None => {
                    &&& final(self).controller == old(self).controller
                    &&& r.0.led is None
                    &&& !r.0.broadcast_macros
                },
                Some(a) => spec_action_post(
                    a,
                    old(self).controller,
                    now_us,
                    created@,
                    final(self).controller,
                    r.0,
                ),
            },
    {
        let (action, suppressed) = self.combo.update(buttons, now_us);
        let effect = match action {
            Some(a) => {
                let cmd = match a {
                    ComboAction::ToggleMacroMode => MacroCommand::ToggleMacroMode,
                    ComboAction::ToggleRecording => MacroCommand::ToggleRecording,
                    ComboAction::PrevSlot => MacroCommand::PrevSlot,
                    ComboAction::NextSlot => MacroCommand::NextSlot,
                    ComboAction::PlayMacro => MacroCommand::PlayMacro,
                    ComboAction::StopPlayback => MacroCommand::StopPlayback,
                };
                let eff = self.controller.execute(cmd, now_us, created);
                self.combo.macro_mode = self.controller.macro_mode;
                eff
            },
            None => {
                self.combo.macro_mode = self.controller.macro_mode;
                MacroEffect { led: None, broadcast_macros: false }
            },
        };
        (effect, suppressed)
    }

    pub fn process_live(&mut self, raw: &[u8; 64], now_us: u64, created: &str) -> (r: LiveOutcome)
        requires
            spec_controller_wf(old(self).controller),
        ensures
            spec_controller_wf(final(self).controller),
            ({
                let parsed = spec_parse_buttons(raw@[3], raw@[4], raw@[5]);
                let act = spec_action(old(self).combo, parsed, now_us);
                &&& forall|b: Button| #[trigger]
                    r.input.buttons.spec_get(b) == (parsed.spec_get(b) && !spec_suppressed(
                        parsed,
                        b,
                    ))
                &&& r.input.left_stick_raw == spec_unpack_12bit(raw@[6], raw@[7], raw@[8])
                &&& r.input.right_stick_raw == spec_unpack_12bit(raw@[9], raw@[10], raw@[11])
                &&& r.input.left_trigger == spec_remap_trigger(raw@[13])
                &&& r.input.right_trigger == spec_remap_trigger(raw@[14])
                &&& (forall|i: int|
                    0 <= i < 64 && !(3 <= i < 6) ==> r.raw_masked@[i] == raw@[i])
                &&& r.raw_masked@[3] == (raw@[3] & !spec_live_mask0(parsed))
                &&& r.raw_masked@[4] == (raw@[4] & !spec_live_mask1(parsed))
                &&& r.raw_masked@[5] == (raw@[5] & !spec_live_mask2(parsed))
                &&& final(self).combo.dpad_down_start == spec_next_timer(
                    old(self).combo,
                    parsed,
                    now_us,
                )
                &&& final(self).combo.prev_buttons == parsed
                &&& final(self).combo.prev_base_held == spec_base_held(parsed)
                &&& final(self).combo.macro_mode == final(self).controller.macro_mode
                &&& match act {
                    None => {
                        &&& spec_after_record(
                            old(self).controller,
                            r.raw_masked,
                            now_us,
                            final(self).controller,
                        )
                        &&& r.effect.led is None
                        &&& !r.effect.broadcast_macros
                    },
                    Some(a) => exists|mid: MacroController|
                        {
                            &&& #[trigger] spec_action_post(
                                a,
                                old(self).controller,
                                now_us,
                                created@,
                                mid,
                                r.effect,
                            )
                            &&& spec_after_record(mid, r.raw_masked, now_us, final(self).controller)
                        },
                }
            }),
    {
        let mut parsed = parse_hid_report(raw);
        let ghost parsed_buttons = parsed.buttons;

        let (effect, suppressed) = self.combo_and_execute(&parsed.buttons, now_us, created);
        let ghost mid_controller = self.controller;

        suppressed.filter_buttons(&mut parsed.buttons);
        proof {
            assert forall|b: Button| #[trigger]
                parsed.buttons.spec_get(b) == (parsed_buttons.spec_get(b) && !spec_suppressed(
                    parsed_buttons,
                    b,
                )) by {
                crate::combo::lemma_filtered_get(suppressed@, parsed_buttons, b);
            }
        }

        let mut raw_masked = *raw;
        suppressed.filter_raw_report(&mut raw_masked);
        proof {
            lemma_masks_agree(suppressed@, parsed_buttons);
        }

        if self.controller.recorder.recording {
            let recorder = &mut self.controller.recorder;
            recorder.add_frame(&raw_masked, now_us);
        }

        proof {
            assert(spec_after_record(mid_controller, raw_masked, now_us, self.controller));
            if spec_action(old(self).combo, parsed_buttons, now_us) is Some {
                let a = spec_action(old(self).combo, parsed_buttons, now_us).unwrap();
                assert(spec_action_post(
                    a,
                    old(self).controller,
                    now_us,
                    created@,
                    mid_controller,
                    effect,
                ));
            }
        }

        LiveOutcome { input: parsed, raw_masked, effect }
    }

    /// Advance playback by one step: while the player is playing, return
    /// the frame to forward; when the player reports the end, stop it and
    /// restore the mode LED.
    pub fn playback_step(&mut self, now_us: u64) -> (r: (Option<[u8; 64]>, Option<LedPattern>))
        requires
            spec_controller_wf(old(self).controller),
        ensures
            spec_controller_wf(final(self).controller),
            final(self).combo == old(self).combo,
            final(self).controller.store == old(self).controller.store,
            final(self).controller.recorder == old(self).controller.recorder,
            final(self).controller.macro_mode == old(self).controller.macro_mode,
            !old(self).controller.player.playing ==> *final(self) == *old(self) && r.0 is None
                && r.1 is None,
            old(self).controller.player.playing ==> exists|mid: crate::player::MacroPlayer|
                {
                    &&& #[trigger] spec_get_frame_post(
                        old(self).controller.player,
                        now_us,
                        mid,
                        r.0,
                    )
                    &&& if r.0 is Some {
                        final(self).controller.player == mid && r.1 is None
                    } else {
                        &&& !final(self).controller.player.playing
                        &&& !final(self).controller.player.looping
                        &&& r.1 == Some(spec_mode_led(old(self).controller.macro_mode))
                    }
                },
    {
        if !self.controller.player.playing {
            return (None, None);
        }
        let frame = self.controller.player.get_frame(now_us);
        let ghost mid = self.controller.player;
        match frame {
            Some(f) => (Some(f), None),
            None => {
                self.controller.player.stop();
                (None, Some(self.controller.mode_led()))
            },
        }
    }

    /// While playback overrides the live input, watch the live buttons for
    /// the stop chord: a stop action stops the player and restores the mode
    /// LED.
    pub fn check_abort(&mut self, buttons: &ButtonState, now_us: u64) -> (r: Option<LedPattern>)
        requires
            spec_controller_wf(old(self).controller),
        ensures
            spec_controller_wf(final(self).controller),
            final(self).controller.store == old(self).controller.store,
            final(self).controller.recorder == old(self).controller.recorder,
            final(self).controller.macro_mode == old(self).controller.macro_mode,
            final(self).combo.prev_buttons == *buttons,
            ({
                let act = spec_action(old(self).combo, *buttons, now_us);
                if act == Some(ComboAction::StopPlayback) && old(self).controller.player.playing {
                    &&& !final(self).controller.player.playing
                    &&& r == Some(spec_mode_led(old(self).controller.macro_mode))
                } else {
                    final(self).controller.player == old(self).controller.player && r is None
                }
            }),
    {
        let (action, _suppressed) = self.combo.update(buttons, now_us);
        match action {
            Some(a) => {
                if matches!(a, ComboAction::StopPlayback) && self.controller.player.playing {
                    self.controller.player.stop();
                    Some(self.controller.mode_led())
                } else {
                    None
                }
            },
            None => None,
        }
    }

    /// The session snapshot describing the pipeline's current state.
    pub fn snapshot(&self, usb_connected: bool, bt_connected: bool) -> (r: StateSnapshot)
        ensures
            r.macro_mode == self.controller.macro_mode,
            r.recording == self.controller.recorder.recording,
            r.playing == self.controller.player.playing,
            r.current_slot == self.controller.current_slot,
            r.slot_count == self.controller.cached_slot_count,
            (match (r.current_macro_name, self.controller.cached_macro_name) {
                (Some(a), Some(b)) => a@ == b@,
                (None, None) => true,
                _ => false,
            }),
            r.usb_connected == usb_connected,
            r.bt_connected == bt_connected,
            r.playback_speed == self.controller.player.speed,
            r.looping == self.controller.player.looping,
    {
        StateSnapshot {
            macro_mode: self.controller.macro_mode,
            recording: self.controller.recorder.recording,
            playing: self.controller.player.playing,
            current_slot: self.controller.current_slot,
            slot_count: self.controller.cached_slot_count,
            current_macro_name: match &self.controller.cached_macro_name {
                Some(n) => Some(n.clone()),
                None => None,
            },
            usb_connected,
            bt_connected,
            playback_speed: self.controller.player.speed,
            looping: self.controller.player.looping,
        }
    }
}

} // verus!
