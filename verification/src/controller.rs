//! Unified macro command handler.
//!
//! Owns the recorder, the player, the store and the slot cursor, and
//! executes every macro command — whether it came from the combo detector
//! or from the web interface — through one entry point. The controller is
//! I/O-free: it reports the LED pattern to adopt and whether the macro list
//! changed, and the caller applies both.

use vstd::prelude::*;
use vstd::string::StrSliceExecFns;

use crate::player::{
    spec_file_frame_count, spec_file_ok, spec_clamped_speed, spec_next_speed, MacroPlayer,
};
use crate::recorder::{spec_recorder_wf, MacroRecorder};
use crate::storage::{
    spec_file_of_id, spec_filename, spec_has_id, spec_max_id, spec_save_post, MacroStore,
};

verus! {

/// The LED pattern the physical controller should show.
#[derive(Debug, Clone, Copy, PartialEq, Eq, Structural)]
pub enum LedPattern {
    Normal,
    MacroMode,
    Recording,
    Playback,
}

/// Unified command enum covering combo actions and web commands alike.
/// Playback speed travels in hundredths; 100 is real time.
#[derive(Debug, Clone)]
pub enum MacroCommand {
    ToggleMacroMode,
    ToggleRecording,
    PrevSlot,
    NextSlot,
    SelectSlot(usize),
    PlayMacro,
    StopPlayback,
    RenameMacro(u32, String),
    DeleteMacro(u32),
    CycleSpeed,
    SetPlaybackSpeed(u32),
}

/// Character-by-character string comparison.
fn str_eq(a: &str, b: &str) -> (r: bool)
    ensures
        r == (a@ == b@),
{
    let an = a.unicode_len();
    let bn = b.unicode_len();
    if an != bn {
        return false;
    }
    let mut i: usize = 0;
    while i < an
        invariant
            an as nat == a@.len(),
            bn as nat == b@.len(),
            an == bn,
            i <= an,
            forall|j: int| 0 <= j < i ==> a@[j] == b@[j],
        decreases an - i,
    {
        if a.get_char(i) != b.get_char(i) {
            return false;
        }
        i = i + 1;
    }
    proof {
        assert(a@ =~= b@);
    }
    true
}

/// Map a command word and its plain operands, as the web interface hands
/// them over, to a macro command. The enumerated words yield exactly their
/// commands; any other word yields nothing. `num` carries a slot or a
/// macro id, `speed_hundredths` a playback speed scalar in hundredths, and
/// `text` a new macro name.
pub fn command_from_name(
    cmd: &str,
    num: Option<u64>,
    speed_hundredths: Option<u64>,
    text: Option<&str>,
) -> (r: Option<MacroCommand>)
    ensures
        cmd@ == "TOGGLE_MACRO_MODE"@ ==> r == Some(MacroCommand::ToggleMacroMode),
        cmd@ == "TOGGLE_RECORDING"@ ==> r == Some(MacroCommand::ToggleRecording),
        cmd@ == "PREV_SLOT"@ ==> r == Some(MacroCommand::PrevSlot),
        cmd@ == "NEXT_SLOT"@ ==> r == Some(MacroCommand::NextSlot),
        cmd@ == "PLAY_MACRO"@ ==> r == Some(MacroCommand::PlayMacro),
        cmd@ == "STOP_PLAYBACK"@ ==> r == Some(MacroCommand::StopPlayback),
        cmd@ == "CYCLE_SPEED"@ ==> r == Some(MacroCommand::CycleSpeed),
        cmd@ == "SELECT_SLOT"@ ==> r == (match num {
            Some(v) => Some(MacroCommand::SelectSlot(v as usize)),
            None => None,
        }),
        cmd@ == "SET_PLAYBACK_SPEED"@ ==> r == (match speed_hundredths {
            Some(v) => Some(MacroCommand::SetPlaybackSpeed(v as u32)),
            None => None,
        }),
        cmd@ == "DELETE_MACRO"@ ==> r == (match num {
            Some(v) => Some(MacroCommand::DeleteMacro(v as u32)),
            None => None,
        }),
        cmd@ == "RENAME_MACRO"@ ==> (match (num, text) {
            (Some(v), Some(n)) => r matches Some(c) && (c matches MacroCommand::RenameMacro(
                id,
                name,
            ) && id == v as u32 && name@ == n@),
            _ => r is None,
        }),
        !(cmd@ == "TOGGLE_MACRO_MODE"@ || cmd@ == "TOGGLE_RECORDING"@ || cmd@ == "PREV_SLOT"@
            || cmd@ == "NEXT_SLOT"@ || cmd@ == "PLAY_MACRO"@ || cmd@ == "STOP_PLAYBACK"@ || cmd@
            == "CYCLE_SPEED"@ || cmd@ == "SELECT_SLOT"@ || cmd@ == "SET_PLAYBACK_SPEED"@ || cmd@
            == "DELETE_MACRO"@ || cmd@ == "RENAME_MACRO"@) ==> r is None,
{
    proof {
        reveal_strlit("TOGGLE_MACRO_MODE");
        reveal_strlit("TOGGLE_RECORDING");
        reveal_strlit("PREV_SLOT");
        reveal_strlit("NEXT_SLOT");
        reveal_strlit("PLAY_MACRO");
        reveal_strlit("STOP_PLAYBACK");
        reveal_strlit("CYCLE_SPEED");
        reveal_strlit("SELECT_SLOT");
        reveal_strlit("SET_PLAYBACK_SPEED");
        reveal_strlit("DELETE_MACRO");
        reveal_strlit("RENAME_MACRO");
        assert("TOGGLE_MACRO_MODE"@.len() == 17 && "TOGGLE_RECORDING"@.len() == 16
            && "PREV_SLOT"@.len() == 9 && "NEXT_SLOT"@.len() == 9 && "PLAY_MACRO"@.len() == 10
            && "STOP_PLAYBACK"@.len() == 13 && "CYCLE_SPEED"@.len() == 11 && "SELECT_SLOT"@.len()
            == 11 && "SET_PLAYBACK_SPEED"@.len() == 18 && "DELETE_MACRO"@.len() == 12
            && "RENAME_MACRO"@.len() == 12);
        assert("PREV_SLOT"@[0] == 'P' && "NEXT_SLOT"@[0] == 'N');
        assert("CYCLE_SPEED"@[0] == 'C' && "SELECT_SLOT"@[0] == 'S');
        assert("DELETE_MACRO"@[0] == 'D' && "RENAME_MACRO"@[0] == 'R');
    }
    if str_eq(cmd, "TOGGLE_MACRO_MODE") {
        Some(MacroCommand::ToggleMacroMode)
    } else if str_eq(cmd, "TOGGLE_RECORDING") {
        Some(MacroCommand::ToggleRecording)
    } else if str_eq(cmd, "PREV_SLOT") {
        Some(MacroCommand::PrevSlot)
    } else if str_eq(cmd, "NEXT_SLOT") {
        Some(MacroCommand::NextSlot)
    } else if str_eq(cmd, "PLAY_MACRO") {
        Some(MacroCommand::PlayMacro)
    } else if str_eq(cmd, "STOP_PLAYBACK") {
        Some(MacroCommand::StopPlayback)
    } else if str_eq(cmd, "CYCLE_SPEED") {
        Some(MacroCommand::CycleSpeed)
    } else if str_eq(cmd, "SELECT_SLOT") {
        match num {
            Some(v) => Some(MacroCommand::SelectSlot(#[verifier::truncate] (v as usize))),
            None => None,
        }
    } else if str_eq(cmd, "SET_PLAYBACK_SPEED") {
        match speed_hundredths {
            Some(v) => Some(MacroCommand::SetPlaybackSpeed(#[verifier::truncate] (v as u32))),
            None => None,
        }
    } else if str_eq(cmd, "DELETE_MACRO") {
        match num {
            Some(v) => Some(MacroCommand::DeleteMacro(#[verifier::truncate] (v as u32))),
            None => None,
        }
    } else if str_eq(cmd, "RENAME_MACRO") {
        match (num, text) {
            (Some(v), Some(n)) => Some(
                MacroCommand::RenameMacro(#[verifier::truncate] (v as u32), n.to_owned()),
            ),
            _ => None,
        }
    } else {
        None
    }
}

/// Side effects produced by executing a command. The caller applies them:
/// it writes the LED pattern to the device and rebroadcasts the macro list
/// to web clients.
pub struct MacroEffect {
    /// LED pattern to set, if any.
    pub led: Option<LedPattern>,
    /// Whether the macro list should be broadcast to web clients.
    pub broadcast_macros: bool,
}

impl MacroEffect {
    fn none() -> (r: Self)
        ensures
            r.led is None,
            !r.broadcast_macros,
    {
        MacroEffect { led: None, broadcast_macros: false }
    }
}

/// The LED pattern of the current mode.
pub open spec fn spec_mode_led(macro_mode: bool) -> LedPattern {
    if macro_mode {
        LedPattern::MacroMode
    } else {
        LedPattern::Normal
    }
}

/// What stopping and saving a recording leaves in the store: a non-empty
/// recording is appended under the next id and the default name, an empty
/// one (or an exhausted id space) leaves the store untouched.
pub open spec fn spec_saved_default(
    pre: MacroStore,
    frames: Seq<(u64, [u8; 64])>,
    created: Seq<char>,
    post: MacroStore,
) -> bool {
    if frames.len() > 0 && spec_max_id(pre.entries@) < 0xFFFFFFFF {
        exists|id: u32| spec_save_post(pre, frames, None, created, post, id)
    } else {
        post == pre
    }
}

/// The slot before `slot`, wrapping over `count` slots; with no slots the
/// cursor stays put.
pub open spec fn spec_prev_slot(slot: int, count: int) -> int {
    if count > 0 {
        if slot == 0 {
            count - 1
        } else {
            slot - 1
        }
    } else {
        slot
    }
}

/// The slot after `slot`, wrapping over `count` slots; with no slots the
/// cursor stays put.
pub open spec fn spec_next_slot(slot: int, count: int) -> int {
    if count > 0 {
        (slot + 1) % count
    } else {
        slot
    }
}

/// Owns all macro state and provides a single `execute` entry point.
pub struct MacroController {
    pub macro_mode: bool,
    pub recorder: MacroRecorder,
    pub player: MacroPlayer,
    pub store: MacroStore,
    pub current_slot: usize,
    pub cached_slot_count: usize,
    pub cached_macro_name: Option<String>,
}

/// The controller's invariant: the store and the recorder keep theirs.
pub open spec fn spec_controller_wf(c: MacroController) -> bool {
    &&& c.store.wf()
    &&& spec_recorder_wf(c.recorder)
}

/// The slot cache matches the store: the count is the store's and the name
/// is the name of the macro at the current slot, if the slot is in range.
pub open spec fn spec_cache_fresh(c: MacroController) -> bool {
    &&& c.cached_slot_count == c.store.entries@.len()
    &&& if c.current_slot < c.store.entries@.len() {
        c.cached_macro_name matches Some(n) && n@ == c.store.entries@[c.current_slot as int].name@
    } else {
        c.cached_macro_name is None
    }
}

impl MacroController {
    /// Build a controller over a loaded store, with the cursor on slot 0.
    pub fn new(store: MacroStore) -> (r: Self)
        requires
            store.wf(),
        ensures
            spec_controller_wf(r),
            r.store == store,
            !r.macro_mode,
            !r.recorder.recording,
            !r.player.playing,
            r.player.speed == 100u32,
            r.current_slot == 0,
            spec_cache_fresh(r),
    {
        let mut c = MacroController {
            macro_mode: false,
            recorder: MacroRecorder::new(),
            player: MacroPlayer::new(),
            store,
            current_slot: 0,
            cached_slot_count: 0,
            cached_macro_name: None,
        };
        c.refresh_cache();
        c
    }

    /// The LED pattern for the current mode.
    pub fn mode_led(&self) -> (r: LedPattern)
        ensures
            r == spec_mode_led(self.macro_mode),
    {
        if self.macro_mode {
            LedPattern::MacroMode
        } else {
            LedPattern::Normal
        }
    }

    /// Re-read the slot count and the current macro's name from the store.
    fn refresh_cache(&mut self)
        requires
            old(self).store.wf(),
        ensures
            final(self).store == old(self).store,
            final(self).recorder == old(self).recorder,
            final(self).player == old(self).player,
            final(self).macro_mode == old(self).macro_mode,
            final(self).current_slot == old(self).current_slot,
            spec_cache_fresh(*final(self)),
    {
        self.cached_slot_count = self.store.get_slot_count();
        let name = match self.store.get_macro_id_by_slot(self.current_slot) {
            Some(id) => match self.store.get_macro_info(id) {
                Some(entry) => {
                    proof {
                        let k = choose|k: int|
                            0 <= k < self.store.entries@.len() && self.store.entries@[k] == entry;
                        if k != self.current_slot as int {
                            assert(self.store.entries@[k].id != self.store.entries@[self.current_slot
                                as int].id);
                        }
                    }
                    Some(entry.name)
                },
                None => None,
            },
            None => None,
        };
        self.cached_macro_name = name;
    }

    /// Execute a macro command at monotonic time `now_us`; `created` stamps
    /// any recording the command commits to the store. Returns the side
    /// effects to apply.
    pub fn execute(&mut self, cmd: MacroCommand, now_us: u64, created: &str) -> (r: MacroEffect)
        requires
            spec_controller_wf(*old(self)),
        ensures
            spec_controller_wf(*final(self)),
            match cmd {
                MacroCommand::ToggleMacroMode => spec_toggle_macro_mode_post(
                    *old(self),
                    now_us,
                    created@,
                    *final(self),
                    r,
                ),
                MacroCommand::ToggleRecording => spec_toggle_recording_post(
                    *old(self),
                    now_us,
                    created@,
                    *final(self),
                    r,
                ),
                MacroCommand::PrevSlot => spec_slot_move_post(
                    *old(self),
                    spec_prev_slot(
                        old(self).current_slot as int,
                        old(self).cached_slot_count as int,
                    ),
                    old(self).cached_slot_count > 0,
                    *final(self),
                    r,
                ),
                MacroCommand::NextSlot => spec_slot_move_post(
                    *old(self),
                    spec_next_slot(
                        old(self).current_slot as int,
                        old(self).cached_slot_count as int,
                    ),
                    old(self).cached_slot_count > 0,
                    *final(self),
                    r,
                ),
                MacroCommand::SelectSlot(slot) => spec_slot_move_post(
                    *old(self),
                    if slot < old(self).cached_slot_count {
                        slot as int
                    } else {
                        old(self).current_slot as int
                    },
                    slot < old(self).cached_slot_count,
                    *final(self),
                    r,
                ),
                MacroCommand::PlayMacro => spec_play_macro_post(
                    *old(self),
                    now_us,
                    *final(self),
                    r,
                ),
                MacroCommand::StopPlayback => spec_stop_playback_post(*old(self), *final(self), r),
                MacroCommand::RenameMacro(id, name) => spec_rename_post(
                    *old(self),
                    id,
                    name@,
                    *final(self),
                    r,
                ),
                MacroCommand::DeleteMacro(id) => spec_delete_post(*old(self), id, *final(self), r),
                MacroCommand::CycleSpeed => spec_speed_post(
                    *old(self),
                    spec_next_speed(old(self).player.speed),
                    *final(self),
                    r,
                ),
                MacroCommand::SetPlaybackSpeed(speed) => spec_speed_post(
                    *old(self),
                    spec_clamped_speed(speed),
                    *final(self),
                    r,
                ),
            },
    {
        match cmd {
            MacroCommand::ToggleMacroMode => self.toggle_macro_mode(now_us, created),
            MacroCommand::ToggleRecording => self.toggle_recording(now_us, created),
            MacroCommand::PrevSlot => self.prev_slot(),
            MacroCommand::NextSlot => self.next_slot(),
            MacroCommand::SelectSlot(slot) => self.select_slot(slot),
            MacroCommand::PlayMacro => self.play_macro(now_us),
            MacroCommand::StopPlayback => self.stop_playback(),
            MacroCommand::RenameMacro(id, name) => self.rename_macro(id, name.as_str()),
            MacroCommand::DeleteMacro(id) => self.delete_macro(id),
            MacroCommand::CycleSpeed => self.cycle_speed(),
            MacroCommand::SetPlaybackSpeed(speed) => self.set_playback_speed(speed),
        }
    }

    fn toggle_macro_mode(&mut self, now_us: u64, created: &str) -> (r: MacroEffect)
        requires
            spec_controller_wf(*old(self)),
        ensures
            spec_controller_wf(*final(self)),
            spec_toggle_macro_mode_post(*old(self), now_us, created@, *final(self), r),
    {
        self.macro_mode = !self.macro_mode;
        if self.macro_mode {
            self.refresh_cache();
            MacroEffect { led: Some(LedPattern::MacroMode), broadcast_macros: false }
        } else {
            let mut broadcast = false;
            if self.recorder.recording {
                self.recorder.stop();
                self.recorder.save(&mut self.store, None, created);
                broadcast = true;
            }
            MacroEffect { led: Some(LedPattern::Normal), broadcast_macros: broadcast }
        }
    }

    fn toggle_recording(&mut self, now_us: u64, created: &str) -> (r: MacroEffect)
        requires
            spec_controller_wf(*old(self)),
        ensures
            spec_controller_wf(*final(self)),
            spec_toggle_recording_post(*old(self), now_us, created@, *final(self), r),
    {
        if self.recorder.recording {
            self.recorder.stop();
            self.recorder.save(&mut self.store, None, created);
            self.refresh_cache();
            MacroEffect { led: Some(LedPattern::MacroMode), broadcast_macros: true }
        } else {
            self.recorder.start(now_us);
            MacroEffect { led: Some(LedPattern::Recording), broadcast_macros: false }
        }
    }

    fn set_slot(&mut self, slot: usize) -> (r: MacroEffect)
        requires
            spec_controller_wf(*old(self)),
        ensures
            spec_controller_wf(*final(self)),
            spec_slot_move_post(*old(self), slot as int, true, *final(self), r),
    {
        self.current_slot = slot;
        self.refresh_cache();
        MacroEffect::none()
    }

    fn prev_slot(&mut self) -> (r: MacroEffect)
        requires
            spec_controller_wf(*old(self)),
        ensures
            spec_controller_wf(*final(self)),
            spec_slot_move_post(
                *old(self),
                spec_prev_slot(old(self).current_slot as int, old(self).cached_slot_count as int),
                old(self).cached_slot_count > 0,
                *final(self),
                r,
            ),
    {
        if self.cached_slot_count > 0 {
            let slot = if self.current_slot == 0 {
                self.cached_slot_count - 1
            } else {
                self.current_slot - 1
            };
            self.set_slot(slot)
        } else {
            MacroEffect::none()
        }
    }

    fn next_slot(&mut self) -> (r: MacroEffect)
        requires
            spec_controller_wf(*old(self)),
        ensures
            spec_controller_wf(*final(self)),
            spec_slot_move_post(
                *old(self),
                spec_next_slot(old(self).current_slot as int, old(self).cached_slot_count as int),
                old(self).cached_slot_count > 0,
                *final(self),
                r,
            ),
    {
        if self.cached_slot_count > 0 {
            let c = self.cached_slot_count;
            proof {
                vstd::arithmetic::div_mod::lemma_mod_bound(self.current_slot as int, c as int);
                if c > 1 {
                    vstd::arithmetic::div_mod::lemma_small_mod(1nat, c as nat);
                } else {
                    vstd::arithmetic::div_mod::lemma_mod_self_0(1int);
                }
            }
            let slot = ((self.current_slot % c) + (1 % c)) % c;
            proof {
                vstd::arithmetic::div_mod::lemma_add_mod_noop(
                    self.current_slot as int,
                    1int,
                    c as int,
                );
            }
            self.set_slot(slot)
        } else {
            MacroEffect::none()
        }
    }

    fn select_slot(&mut self, slot: usize) -> (r: MacroEffect)
        requires
            spec_controller_wf(*old(self)),
        ensures
            spec_controller_wf(*final(self)),
            spec_slot_move_post(
                *old(self),
                if slot < old(self).cached_slot_count {
                    slot as int
                } else {
                    old(self).current_slot as int
                },
                slot < old(self).cached_slot_count,
                *final(self),
                r,
            ),
    {
        if slot < self.cached_slot_count {
            self.set_slot(slot)
        } else {
            MacroEffect::none()
        }
    }

    fn play_macro(&mut self, now_us: u64) -> (r: MacroEffect)
        requires
            spec_controller_wf(*old(self)),
        ensures
            spec_controller_wf(*final(self)),
            spec_play_macro_post(*old(self), now_us, *final(self), r),
    {
        let id = match self.store.get_macro_id_by_slot(self.current_slot) {
            Some(id) => id,
            None => {
                return MacroEffect::none();
            },
        };
        proof {
            assert(spec_has_id(self.store.entries@, id)) by {
                assert(self.store.entries@[self.current_slot as int].id == id);
            }
        }
        let file = match self.store.get_file_by_id(id) {
            Some(b) => vstd::slice::slice_to_vec(b.as_slice()),
            None => {
                return MacroEffect::none();
            },
        };
        if self.player.load(file) {
            self.player.start(false, now_us);
            MacroEffect { led: Some(LedPattern::Playback), broadcast_macros: false }
        } else {
            MacroEffect::none()
        }
    }

    fn stop_playback(&mut self) -> (r: MacroEffect)
        requires
            spec_controller_wf(*old(self)),
        ensures
            spec_controller_wf(*final(self)),
            spec_stop_playback_post(*old(self), *final(self), r),
    {
        if self.player.playing {
            self.player.stop();
            MacroEffect { led: Some(self.mode_led()), broadcast_macros: false }
        } else {
            MacroEffect::none()
        }
    }

    fn cycle_speed(&mut self) -> (r: MacroEffect)
        requires
            spec_controller_wf(*old(self)),
        ensures
            spec_controller_wf(*final(self)),
            spec_speed_post(*old(self), spec_next_speed(old(self).player.speed), *final(self), r),
    {
        self.player.cycle_speed();
        MacroEffect::none()
    }

    fn set_playback_speed(&mut self, speed: u32) -> (r: MacroEffect)
        requires
            spec_controller_wf(*old(self)),
        ensures
            spec_controller_wf(*final(self)),
            spec_speed_post(*old(self), spec_clamped_speed(speed), *final(self), r),
    {
        self.player.set_speed(speed);
        MacroEffect::none()
    }

    fn rename_macro(&mut self, id: u32, name: &str) -> (r: MacroEffect)
        requires
            spec_controller_wf(*old(self)),
        ensures
            spec_controller_wf(*final(self)),
            spec_rename_post(*old(self), id, name@, *final(self), r),
    {
        if self.store.rename_macro(id, name) {
            self.refresh_cache();
            MacroEffect { led: None, broadcast_macros: true }
        } else {
            MacroEffect::none()
        }
    }

    fn delete_macro(&mut self, id: u32) -> (r: MacroEffect)
        requires
            spec_controller_wf(*old(self)),
        ensures
            spec_controller_wf(*final(self)),
            spec_delete_post(*old(self), id, *final(self), r),
    {
        if self.store.delete_macro(id) {
            let new_count = self.store.get_slot_count();
            self.cached_slot_count = new_count;
            if new_count == 0 {
                self.current_slot = 0;
            } else if self.current_slot >= new_count {
                self.current_slot = new_count - 1;
            }
            self.refresh_cache();
            MacroEffect { led: None, broadcast_macros: true }
        } else {
            MacroEffect::none()
        }
    }
}

/// Everything `ToggleMacroMode` does. Turning macro mode on refreshes the
/// cache and lights the macro-mode LED; turning it off while recording
/// stops the recording, saves it under the default name, and asks for a
/// macro-list broadcast.
pub open spec fn spec_toggle_macro_mode_post(
    pre: MacroController,
    now_us: u64,
    created: Seq<char>,
    post: MacroController,
    eff: MacroEffect,
) -> bool {
    &&& post.macro_mode == !pre.macro_mode
    &&& post.player == pre.player
    &&& post.current_slot == pre.current_slot
    &&& eff.led == Some(spec_mode_led(!pre.macro_mode))
    &&& eff.broadcast_macros == (pre.macro_mode && pre.recorder.recording)
    &&& if !pre.macro_mode {
        &&& post.store == pre.store
        &&& post.recorder == pre.recorder
        &&& spec_cache_fresh(post)
    } else {
        &&& !post.recorder.recording
        &&& (post.recorder.frames@.len() == 0 || !pre.recorder.recording)
        &&& post.cached_slot_count == pre.cached_slot_count
        &&& post.cached_macro_name == pre.cached_macro_name
        &&& if pre.recorder.recording {
            spec_saved_default(pre.store, pre.recorder.frames@, created, post.store)
        } else {
            post.store == pre.store && post.recorder == pre.recorder
        }
    }
}

/// Everything `ToggleRecording` does: starting clears the buffer and lights
/// the recording LED; stopping saves the recording under the default name,
/// refreshes the cache, and asks for a broadcast.
pub open spec fn spec_toggle_recording_post(
    pre: MacroController,
    now_us: u64,
    created: Seq<char>,
    post: MacroController,
    eff: MacroEffect,
) -> bool {
    &&& post.macro_mode == pre.macro_mode
    &&& post.player == pre.player
    &&& post.current_slot == pre.current_slot
    &&& post.recorder.recording == !pre.recorder.recording
    &&& if pre.recorder.recording {
        &&& spec_saved_default(pre.store, pre.recorder.frames@, created, post.store)
        &&& post.recorder.frames@.len() == 0
        &&& spec_cache_fresh(post)
        &&& eff.led == Some(LedPattern::MacroMode)
        &&& eff.broadcast_macros
    } else {
        &&& post.store == pre.store
        &&& post.recorder.frames@.len() == 0
        &&& post.recorder.start_us == Some(now_us)
        &&& post.cached_slot_count == pre.cached_slot_count
        &&& post.cached_macro_name == pre.cached_macro_name
        &&& eff.led == Some(LedPattern::Recording)
        &&& !eff.broadcast_macros
    }
}

/// Everything a slot move (previous, next or select) does: the cursor
/// lands on `target` and, whenever the command acted (there were slots to
/// move over, or the selected slot was in range), the cache is refreshed;
/// a no-op leaves the cache as it was. Nothing else changes.
pub open spec fn spec_slot_move_post(
    pre: MacroController,
    target: int,
    acted: bool,
    post: MacroController,
    eff: MacroEffect,
) -> bool {
    &&& post.macro_mode == pre.macro_mode
    &&& post.recorder == pre.recorder
    &&& post.player == pre.player
    &&& post.store == pre.store
    &&& post.current_slot == target
    &&& if acted {
        spec_cache_fresh(post)
    } else {
        post.cached_slot_count == pre.cached_slot_count && post.cached_macro_name
            == pre.cached_macro_name
    }
    &&& eff.led is None
    &&& !eff.broadcast_macros
}

/// Everything `PlayMacro` does: with a macro at the current slot whose file
/// carries a valid header, the file is loaded and playback starts from its
/// first frame at `now_us` without looping, under the playback LED. A slot
/// out of range leaves everything unchanged; a corrupt file leaves the
/// player unloaded.
pub open spec fn spec_play_macro_post(
    pre: MacroController,
    now_us: u64,
    post: MacroController,
    eff: MacroEffect,
) -> bool {
    let count = pre.store.entries@.len() as int;
    &&& post.macro_mode == pre.macro_mode
    &&& post.recorder == pre.recorder
    &&& post.store == pre.store
    &&& post.current_slot == pre.current_slot
    &&& post.cached_slot_count == pre.cached_slot_count
    &&& post.cached_macro_name == pre.cached_macro_name
    &&& post.player.speed == pre.player.speed
    &&& !eff.broadcast_macros
    &&& if (pre.current_slot as int) < count {
        let id = pre.store.entries@[pre.current_slot as int].id;
        let file = spec_file_of_id(pre.store, id);
        if spec_file_ok(file) {
            &&& (post.player.data matches Some(v) && v@ == file)
            &&& post.player.frame_count == spec_file_frame_count(file)
            &&& eff.led == Some(LedPattern::Playback)
            &&& (spec_file_frame_count(file) > 0 ==> post.player.playing && !post.player.looping
                && post.player.frame_index == 0 && post.player.start_us == Some(now_us)
                && post.player.last_report is None)
        } else {
            &&& post.player.data is None
            &&& post.player.frame_count == 0
            &&& (post.player.playing == pre.player.playing)
            &&& eff.led is None
        }
    } else {
        post.player == pre.player && eff.led is None
    }
}

/// Everything `StopPlayback` does: a playing player stops (keeping its
/// loaded file) and the mode LED comes back; otherwise nothing happens.
pub open spec fn spec_stop_playback_post(
    pre: MacroController,
    post: MacroController,
    eff: MacroEffect,
) -> bool {
    &&& post.macro_mode == pre.macro_mode
    &&& post.recorder == pre.recorder
    &&& post.store == pre.store
    &&& post.current_slot == pre.current_slot
    &&& post.cached_slot_count == pre.cached_slot_count
    &&& post.cached_macro_name == pre.cached_macro_name
    &&& !eff.broadcast_macros
    &&& if pre.player.playing {
        &&& !post.player.playing
        &&& !post.player.looping
        &&& post.player.data == pre.player.data
        &&& post.player.speed == pre.player.speed
        &&& post.player.frame_count == pre.player.frame_count
        &&& eff.led == Some(spec_mode_led(pre.macro_mode))
    } else {
        post.player == pre.player && eff.led is None
    }
}

/// Everything a speed command does: the player's speed becomes `target`
/// and nothing else changes.
pub open spec fn spec_speed_post(
    pre: MacroController,
    target: u32,
    post: MacroController,
    eff: MacroEffect,
) -> bool {
    &&& post.macro_mode == pre.macro_mode
    &&& post.recorder == pre.recorder
    &&& post.store == pre.store
    &&& post.current_slot == pre.current_slot
    &&& post.cached_slot_count == pre.cached_slot_count
    &&& post.cached_macro_name == pre.cached_macro_name
    &&& post.player.speed == target
    &&& post.player.playing == pre.player.playing
    &&& post.player.looping == pre.player.looping
    &&& post.player.data == pre.player.data
    &&& post.player.frame_count == pre.player.frame_count
    &&& post.player.frame_index == pre.player.frame_index
    &&& post.player.start_us == pre.player.start_us
    &&& post.player.last_report == pre.player.last_report
    &&& eff.led is None
    &&& !eff.broadcast_macros
}

/// Everything `RenameMacro` does: a known id gets the new name and the
/// matching file name and the list is rebroadcast; an unknown id changes
/// nothing.
pub open spec fn spec_rename_post(
    pre: MacroController,
    id: u32,
    name: Seq<char>,
    post: MacroController,
    eff: MacroEffect,
) -> bool {
    &&& post.macro_mode == pre.macro_mode
    &&& post.recorder == pre.recorder
    &&& post.player == pre.player
    &&& post.current_slot == pre.current_slot
    &&& eff.led is None
    &&& eff.broadcast_macros == spec_has_id(pre.store.entries@, id)
    &&& if spec_has_id(pre.store.entries@, id) {
        &&& post.store.entries@.len() == pre.store.entries@.len()
        &&& post.store.files@ == pre.store.files@
        &&& (forall|j: int|
            0 <= j < pre.store.entries@.len() && pre.store.entries@[j].id != id
                ==> post.store.entries@[j] == pre.store.entries@[j])
        &&& (forall|j: int|
            0 <= j < pre.store.entries@.len() && (#[trigger] pre.store.entries@[j]).id == id ==> {
                &&& post.store.entries@[j].id == id
                &&& post.store.entries@[j].name@ == name
                &&& post.store.entries@[j].filename@ == spec_filename(id as nat, name)
            })
        &&& spec_cache_fresh(post)
    } else {
        post.store == pre.store && post.cached_slot_count == pre.cached_slot_count
            && post.cached_macro_name == pre.cached_macro_name
    }
}

/// Everything `DeleteMacro` does: a known id's entry and file are removed
/// together, the cursor is clamped to the remaining slots, and the list is
/// rebroadcast; an unknown id changes nothing.
pub open spec fn spec_delete_post(
    pre: MacroController,
    id: u32,
    post: MacroController,
    eff: MacroEffect,
) -> bool {
    &&& post.macro_mode == pre.macro_mode
    &&& post.recorder == pre.recorder
    &&& post.player == pre.player
    &&& eff.led is None
    &&& eff.broadcast_macros == spec_has_id(pre.store.entries@, id)
    &&& if spec_has_id(pre.store.entries@, id) {
        &&& (exists|i: int|
            {
                &&& 0 <= i < pre.store.entries@.len()
                &&& (#[trigger] pre.store.entries@[i]).id == id
                &&& post.store.entries@ == pre.store.entries@.remove(i)
                &&& post.store.files@ == pre.store.files@.remove(i)
            })
        &&& post.current_slot == (if post.store.entries@.len() == 0 {
            0int
        } else if (pre.current_slot as int) >= post.store.entries@.len() {
            post.store.entries@.len() - 1
        } else {
            pre.current_slot as int
        })
        &&& spec_cache_fresh(post)
    } else {
        post.store == pre.store && post.current_slot == pre.current_slot
            && post.cached_slot_count == pre.cached_slot_count && post.cached_macro_name
            == pre.cached_macro_name
    }
}

} // verus!
