//! Macro recorder: accumulates timestamped HID frames in memory.
//!
//! Time enters as the caller-supplied monotonic timestamp in microseconds.
//! Frame timestamps are offsets from the start of the recording and are kept
//! non-decreasing whatever timestamps the caller hands in.

use vstd::prelude::*;

use crate::storage::{spec_name_view, spec_save_post, MacroStore};

verus! {

/// A recording in progress: whether frames are being captured, the captured
/// frames, and the monotonic time recording started.
pub struct MacroRecorder {
    pub recording: bool,
    pub frames: Vec<(u64, [u8; 64])>,
    pub start_us: Option<u64>,
}

/// Frame timestamps never decrease, and the frame count stays within the
/// file format's 32-bit frame counter.
pub open spec fn spec_recorder_wf(r: MacroRecorder) -> bool {
    &&& forall|i: int, j: int|
        0 <= i < j < r.frames@.len() ==> (#[trigger] r.frames@[i]).0 <= (#[trigger] r.frames@[j]).0
    &&& r.frames@.len() <= 0xFFFFFFFF
}

/// The timestamp the next captured frame gets: the time elapsed since
/// recording started, never going backwards past the last captured frame.
pub open spec fn spec_next_frame_ts(r: MacroRecorder, now_us: u64) -> u64 {
    let elapsed: u64 = match r.start_us {
        Some(s) => if now_us >= s {
            (now_us - s) as u64
        } else {
            0u64
        },
        None => 0u64,
    };
    if r.frames@.len() > 0 && r.frames@.last().0 > elapsed {
        r.frames@.last().0
    } else {
        elapsed
    }
}

impl MacroRecorder {
    pub fn new() -> (r: Self)
        ensures
            !r.recording,
            r.frames@.len() == 0,
            r.start_us is None,
            spec_recorder_wf(r),
    {
        MacroRecorder { recording: false, frames: Vec::new(), start_us: None }
    }

    /// Start recording at monotonic time `now_us`: the buffer is cleared and
    /// subsequent frames are stamped relative to `now_us`.
    pub fn start(&mut self, now_us: u64)
        ensures
            final(self).recording,
            final(self).frames@.len() == 0,
            final(self).start_us == Some(now_us),
            spec_recorder_wf(*final(self)),
    {
        let updated = MacroRecorder { recording: true, frames: Vec::new(), start_us: Some(now_us) };
        *self = updated;
    }

    /// Capture a raw 64-byte HID report at monotonic time `now_us`. Ignored
    /// while not recording; a full buffer (at the frame counter's limit)
    /// drops the frame.
    pub fn add_frame(&mut self, raw_report: &[u8; 64], now_us: u64)
        requires
            spec_recorder_wf(*old(self)),
        ensures
            spec_recorder_wf(*final(self)),
            final(self).recording == old(self).recording,
            final(self).start_us == old(self).start_us,
            old(self).recording && old(self).frames@.len() < 0xFFFFFFFF ==> final(self).frames@
                == old(self).frames@.push((spec_next_frame_ts(*old(self), now_us), *raw_report)),
            !(old(self).recording && old(self).frames@.len() < 0xFFFFFFFF) ==> final(self).frames@
                == old(self).frames@,
    {
        if !self.recording {
            return ;
        }
        if self.frames.len() >= 0xFFFFFFFF {
            return ;
        }
        let elapsed: u64 = match self.start_us {
            Some(s) => if now_us >= s {
                now_us - s
            } else {
                0
            },
            None => 0,
        };
        let n = self.frames.len();
        let ts: u64 = if n > 0 && self.frames[n - 1].0 > elapsed {
            self.frames[n - 1].0
        } else {
            elapsed
        };
        self.frames.push((ts, *raw_report));
        proof {
            assert forall|i: int, j: int|
                0 <= i < j < self.frames@.len() implies (#[trigger] self.frames@[i]).0
                <= (#[trigger] self.frames@[j]).0 by {
                if j == self.frames@.len() - 1 && self.frames@.len() > 1 {
                    assert(old(self).frames@[i].0 <= old(self).frames@[old(self).frames@.len()
                        - 1].0);
                }
            }
        }
    }

    /// Stop recording. Returns the frame count and the duration: the last
    /// frame's timestamp in microseconds, zero for an empty recording.
    pub fn stop(&mut self) -> (r: (usize, u64))
        ensures
            !final(self).recording,
            final(self).frames@ == old(self).frames@,
            final(self).start_us == old(self).start_us,
            r.0 == old(self).frames@.len(),
            r.1 == if old(self).frames@.len() > 0 {
                old(self).frames@.last().0
            } else {
                0u64
            },
    {
        self.recording = false;
        let n = self.frames.len();
        let duration_us: u64 = if n > 0 {
            self.frames[n - 1].0
        } else {
            0
        };
        (n, duration_us)
    }

    /// Commit the captured frames to the store and clear the buffer. Returns
    /// the new macro's id, or nothing when the buffer was empty or the
    /// store's id space is exhausted; the buffer is cleared either way so a
    /// retry starts fresh.
    pub fn save(&mut self, store: &mut MacroStore, name: Option<&str>, created: &str) -> (r: Option<
        u32,
    >)
        requires
            spec_recorder_wf(*old(self)),
            old(store).wf(),
        ensures
            spec_recorder_wf(*final(self)),
            final(store).wf(),
            final(self).recording == old(self).recording,
            final(self).frames@.len() == 0,
            r is Some <==> (old(self).frames@.len() > 0 && crate::storage::spec_max_id(
                old(store).entries@,
            ) < 0xFFFFFFFF),
            r matches Some(id) ==> spec_save_post(
                *old(store),
                old(self).frames@,
                spec_name_view(name),
                created@,
                *final(store),
                id,
            ),
            r is None ==> *final(store) == *old(store),
    {
        let result = store.save_macro(&self.frames, name, created);
        self.frames = Vec::new();
        result
    }
}

} // verus!
