//! Macro player: timestamp-chasing playback over a loaded macro file.
//!
//! The player holds the raw bytes of a macro file (read from disk by the
//! caller) and walks its frames as the caller-supplied monotonic clock
//! passes their timestamps, scaled by the playback speed.

use vstd::prelude::*;

verus! {

/// Lowest playback speed, in hundredths: a quarter of real time.
pub const SPEED_MIN: u32 = 25;

/// Highest playback speed, in hundredths: four times real time.
pub const SPEED_MAX: u32 = 400;

/// Playback over a loaded macro file. `speed` is a scalar in hundredths
/// (100 is real time), clamped to [SPEED_MIN, SPEED_MAX].
pub struct MacroPlayer {
    pub playing: bool,
    pub looping: bool,
    pub speed: u32,
    pub data: Option<Vec<u8>>,
    pub frame_count: u32,
    pub frame_index: u32,
    pub start_us: Option<u64>,
    pub last_report: Option<[u8; 64]>,
}

/// Whether a byte string is a loadable macro file: long enough for the
/// header and starting with the current magic "MAC2" or the accepted
/// legacy magic "MACO".
pub open spec fn spec_file_ok(d: Seq<u8>) -> bool {
    &&& d.len() >= 16
    &&& d[0] == 0x4Du8
    &&& d[1] == 0x41u8
    &&& d[2] == 0x43u8
    &&& (d[3] == 0x32u8 || d[3] == 0x4Fu8)
}

/// The frame count stored in a file's header.
pub open spec fn spec_file_frame_count(d: Seq<u8>) -> u32 {
    vstd::bytes::spec_u32_from_le_bytes(d.subrange(8, 12))
}

/// The byte offset of frame `i`.
pub open spec fn spec_frame_off(i: int) -> int {
    16 + 72 * i
}

/// Whether frame `i` lies entirely within the file.
pub open spec fn spec_frame_in_bounds(d: Seq<u8>, i: int) -> bool {
    spec_frame_off(i) + 72 <= d.len()
}

/// The timestamp of frame `i`, in microseconds from the recording's start.
pub open spec fn spec_frame_ts(d: Seq<u8>, i: int) -> u64 {
    vstd::bytes::spec_u64_from_le_bytes(d.subrange(spec_frame_off(i), spec_frame_off(i) + 8))
}

/// The 64-byte report of frame `i`.
pub open spec fn spec_frame_report(d: Seq<u8>, i: int) -> Seq<u8> {
    d.subrange(spec_frame_off(i) + 8, spec_frame_off(i) + 72)
}

/// The elapsed playback time in scaled microseconds: the wall time since
/// playback started times the speed scalar, saturating at the top of u64.
pub open spec fn spec_scaled_elapsed(start: u64, now: u64, speed: u32) -> u64 {
    if now >= start {
        let scaled = ((now - start) * speed) / 100;
        if scaled > 0xFFFFFFFFFFFFFFFF {
            0xFFFFFFFFFFFFFFFFu64
        } else {
            scaled as u64
        }
    } else {
        0u64
    }
}

/// The frame cursor after one playback step: starting at `j`, skip past
/// every frame that lies in the file and whose timestamp has been reached.
pub open spec fn spec_advance(d: Seq<u8>, count: int, e: u64, j: int) -> int
    decreases count - j,
{
    if j < count && spec_frame_in_bounds(d, j) && spec_frame_ts(d, j) <= e {
        spec_advance(d, count, e, j + 1)
    } else {
        j
    }
}

/// What one `get_frame` step returns: the last frame crossed on this step,
/// or, when none was crossed, whatever was last emitted before.
pub open spec fn spec_ret_matches(
    ret: Option<[u8; 64]>,
    d: Seq<u8>,
    j: int,
    idx: int,
    old_last: Option<[u8; 64]>,
) -> bool {
    if j > idx {
        ret matches Some(rep) && rep@ == spec_frame_report(d, j - 1)
    } else {
        ret == old_last
    }
}

/// The full behaviour of one `get_frame` step.
pub open spec fn spec_get_frame_post(
    pre: MacroPlayer,
    now_us: u64,
    post: MacroPlayer,
    ret: Option<[u8; 64]>,
) -> bool {
    if !pre.playing || pre.data is None || pre.start_us is None {
        post == pre && ret is None
    } else {
        let d = pre.data.unwrap()@;
        let count = pre.frame_count as int;
        let e = spec_scaled_elapsed(pre.start_us.unwrap(), now_us, pre.speed);
        let idx = pre.frame_index as int;
        let j = spec_advance(d, count, e, idx);
        &&& post.speed == pre.speed
        &&& post.data == pre.data
        &&& post.frame_count == pre.frame_count
        &&& spec_ret_matches(ret, d, j, idx, pre.last_report)
        &&& if j >= count {
            if pre.looping {
                &&& post.playing
                &&& post.looping
                &&& post.frame_index == 0
                &&& post.start_us == Some(now_us)
                &&& post.last_report == ret
            } else {
                &&& !post.playing
                &&& post.looping == pre.looping
                &&& post.frame_index == j
                &&& post.start_us == pre.start_us
                &&& post.last_report is None
            }
        } else {
            &&& post.playing
            &&& post.looping == pre.looping
            &&& post.frame_index == j
            &&& post.start_us == pre.start_us
            &&& post.last_report == ret
        }
    }
}

/// Copy 64 bytes out of a loaded file.
fn read_report(data: &Vec<u8>, off: usize) -> (r: [u8; 64])
    requires
        off + 64 <= data@.len(),
    ensures
        r@ == data@.subrange(off as int, off as int + 64),
{
    let n: usize = data.len();
    let mut rep = [0u8; 64];
    let mut k: usize = 0;
    while k < 64
        invariant
            n == data@.len(),
            off + 64 <= n,
            k <= 64,
            forall|t: int| 0 <= t < k ==> rep@[t] == data@[off + t],
        decreases 64 - k,
    {
        rep[k] = data[off + k];
        k = k + 1;
    }
    proof {
        assert(rep@ =~= data@.subrange(off as int, off as int + 64));
    }
    rep
}

/// Walk the cursor forward past every frame whose timestamp has been
/// reached, remembering the last frame crossed.
fn advance_frames(
    data: &Vec<u8>,
    frame_count: u32,
    idx0: u32,
    last0: Option<[u8; 64]>,
    e: u64,
) -> (r: (u32, Option<[u8; 64]>))
    ensures
        r.0 as int == spec_advance(data@, frame_count as int, e, idx0 as int),
        r.0 as int > idx0 as int ==> (r.1 matches Some(rep) && rep@ == spec_frame_report(
            data@,
            r.0 as int - 1,
        )),
        r.0 == idx0 ==> r.1 == last0,
        r.0 >= idx0,
{
    let ghost d = data@;
    let ghost count = frame_count as int;
    let n: usize = data.len();
    let mut idx = idx0;
    let mut last = last0;
    loop
        invariant
            n == d.len(),
            d == data@,
            count == frame_count as int,
            idx >= idx0,
            spec_advance(d, count, e, idx as int) == spec_advance(d, count, e, idx0 as int),
            idx as int > idx0 as int ==> (last matches Some(rep) && rep@ == spec_frame_report(
                d,
                idx as int - 1,
            )),
            idx == idx0 ==> last == last0,
        ensures
            spec_advance(d, count, e, idx as int) == idx as int,
        decreases count - idx as int + 1,
    {
        if idx >= frame_count {
            break ;
        }
        let off64: u64 = 16u64 + (idx as u64) * 72u64;
        if off64 + 72 > n as u64 {
            proof {
                assert(!spec_frame_in_bounds(d, idx as int));
            }
            break ;
        }
        let off: usize = off64 as usize;
        let ts_slice = vstd::slice::slice_subrange(data.as_slice(), off, off + 8);
        let ts = vstd::bytes::u64_from_le_bytes(ts_slice);
        proof {
            assert(ts_slice@ =~= d.subrange(spec_frame_off(idx as int), spec_frame_off(idx as int)
                + 8));
        }
        if ts <= e {
            let rep = read_report(data, off + 8);
            proof {
                assert(rep@ =~= spec_frame_report(d, idx as int));
            }
            last = Some(rep);
            idx = idx + 1;
        } else {
            break ;
        }
    }
    (idx, last)
}

impl MacroPlayer {
    pub fn new() -> (r: Self)
        ensures
            !r.playing,
            !r.looping,
            r.speed == 100u32,
            r.data is None,
            r.frame_count == 0,
            r.frame_index == 0,
            r.start_us is None,
            r.last_report is None,
    {
        MacroPlayer {
            playing: false,
            looping: false,
            speed: 100,
            data: None,
            frame_count: 0,
            frame_index: 0,
            start_us: None,
            last_report: None,
        }
    }

    /// Load a macro file's bytes. The previous file is dropped first; a
    /// byte string that is too short for the header or carries the wrong
    /// magic leaves the player with nothing loaded. Returns whether the
    /// file was accepted.
    pub fn load(&mut self, data: Vec<u8>) -> (r: bool)
        ensures
            r == spec_file_ok(data@),
            final(self).playing == old(self).playing,
            final(self).looping == old(self).looping,
            final(self).speed == old(self).speed,
            final(self).frame_index == 0,
            final(self).last_report is None,
            final(self).start_us == old(self).start_us,
            r ==> (final(self).data matches Some(d) && d@ == data@) && final(self).frame_count
                == spec_file_frame_count(data@),
            !r ==> final(self).data is None && final(self).frame_count == 0,
    {
        self.data = None;
        self.frame_count = 0;
        self.frame_index = 0;
        self.last_report = None;

        if data.len() < 16 {
            return false;
        }
        let m0 = data[0];
        let m1 = data[1];
        let m2 = data[2];
        let m3 = data[3];
        if !(m0 == 0x4D && m1 == 0x41 && m2 == 0x43 && (m3 == 0x32 || m3 == 0x4F)) {
            return false;
        }
        let count_bytes = vstd::slice::slice_subrange(data.as_slice(), 8, 12);
        let frame_count = vstd::bytes::u32_from_le_bytes(count_bytes);
        self.frame_count = frame_count;
        self.data = Some(data);
        true
    }

    /// Start playback at monotonic time `now_us`. Requires a loaded file
    /// with at least one frame; returns whether playback started.
    pub fn start(&mut self, looping: bool, now_us: u64) -> (r: bool)
        ensures
            r == (old(self).data is Some && old(self).frame_count > 0),
            final(self).data == old(self).data,
            final(self).frame_count == old(self).frame_count,
            final(self).speed == old(self).speed,
            r ==> final(self).playing && final(self).looping == looping && final(self).frame_index
                == 0 && final(self).start_us == Some(now_us) && final(self).last_report is None,
            !r ==> *final(self) == *old(self),
    {
        if self.data.is_none() || self.frame_count == 0 {
            return false;
        }
        self.playing = true;
        self.looping = looping;
        self.frame_index = 0;
        self.start_us = Some(now_us);
        self.last_report = None;
        true
    }

    /// Stop playback. The loaded file is kept for reuse.
    pub fn stop(&mut self)
        ensures
            !final(self).playing,
            !final(self).looping,
            final(self).speed == old(self).speed,
            final(self).data == old(self).data,
            final(self).frame_count == old(self).frame_count,
            final(self).frame_index == old(self).frame_index,
            final(self).start_us == old(self).start_us,
            final(self).last_report == old(self).last_report,
    {
        self.playing = false;
        self.looping = false;
    }

    /// Set the playback speed in hundredths, clamped to the valid range.
    pub fn set_speed(&mut self, speed: u32)
        ensures
            final(self).speed == spec_clamped_speed(speed),
            final(self).playing == old(self).playing,
            final(self).looping == old(self).looping,
            final(self).data == old(self).data,
            final(self).frame_count == old(self).frame_count,
            final(self).frame_index == old(self).frame_index,
            final(self).start_us == old(self).start_us,
            final(self).last_report == old(self).last_report,
    {
        self.speed = if speed < SPEED_MIN {
            SPEED_MIN
        } else if speed > SPEED_MAX {
            SPEED_MAX
        } else {
            speed
        };
    }

    /// Cycle to the next speed preset, wrapping around; an off-preset speed
    /// cycles to double speed.
    pub fn cycle_speed(&mut self)
        ensures
            final(self).speed == spec_next_speed(old(self).speed),
            final(self).playing == old(self).playing,
            final(self).looping == old(self).looping,
            final(self).data == old(self).data,
            final(self).frame_count == old(self).frame_count,
            final(self).frame_index == old(self).frame_index,
            final(self).start_us == old(self).start_us,
            final(self).last_report == old(self).last_report,
    {
        let next: u32 = if self.speed == 25 {
            50
        } else if self.speed == 50 {
            100
        } else if self.speed == 100 {
            200
        } else if self.speed == 200 {
            400
        } else if self.speed == 400 {
            25
        } else {
            200
        };
        self.set_speed(next);
    }

    /// Advance playback to monotonic time `now_us` and return the frame to
    /// emit: the last frame whose (speed-scaled) timestamp has been
    /// reached. When the cursor passes the final frame the player either
    /// rewinds (when looping) or stops, emitting the final frame one last
    /// time.
    pub fn get_frame(&mut self, now_us: u64) -> (r: Option<[u8; 64]>)
        ensures
            spec_get_frame_post(*old(self), now_us, *final(self), r),
    {
        if !self.playing {
            return None;
        }
        let data = match &self.data {
            Some(d) => d,
            None => {
                return None;
            },
        };
        let start = match self.start_us {
            Some(s) => s,
            None => {
                return None;
            },
        };

        let elapsed_us: u64 = if now_us >= start {
            proof {
                assert(((now_us - start) as u128) * (self.speed as u128)
                    <= 0xFFFFFFFFFFFFFFFF * 0xFFFFFFFFu128) by (nonlinear_arith)
                    requires
                        (now_us - start) as u128 <= 0xFFFFFFFFFFFFFFFFu128,
                        (self.speed as u128) <= 0xFFFFFFFFu128,
                ;
            }
            let scaled: u128 = ((now_us - start) as u128) * (self.speed as u128) / 100;
            if scaled > 0xFFFFFFFFFFFFFFFF {
                0xFFFFFFFFFFFFFFFFu64
            } else {
                scaled as u64
            }
        } else {
            0
        };

        let (idx, last) = advance_frames(
            data,
            self.frame_count,
            self.frame_index,
            self.last_report,
            elapsed_us,
        );

        self.frame_index = idx;
        self.last_report = last;

        if idx >= self.frame_count {
            if self.looping {
                self.frame_index = 0;
                self.start_us = Some(now_us);
                return self.last_report;
            } else {
                self.playing = false;
                let report = self.last_report.take();
                return report;
            }
        }
        self.last_report
    }
}

/// A speed clamped to the valid range.
pub open spec fn spec_clamped_speed(speed: u32) -> u32 {
    if speed < SPEED_MIN {
        SPEED_MIN
    } else if speed > SPEED_MAX {
        SPEED_MAX
    } else {
        speed
    }
}

/// The preset after the current speed, wrapping; off-preset speeds resume
/// at double speed.
pub open spec fn spec_next_speed(speed: u32) -> u32 {
    if speed == 25 {
        50u32
    } else if speed == 50 {
        100u32
    } else if speed == 100 {
        200u32
    } else if speed == 200 {
        400u32
    } else if speed == 400 {
        25u32
    } else {
        200u32
    }
}

/// The cursor passes every frame of a complete file whose timestamps have
/// all been reached.
proof fn lemma_advance_reaches_end(d: Seq<u8>, count: int, e: u64, j: int)
    requires
        0 <= j <= count,
        d.len() == 16 + 72 * count,
        forall|i: int| 0 <= i < count ==> spec_frame_ts(d, i) <= e,
    ensures
        spec_advance(d, count, e, j) == count,
    decreases count - j,
{
    if j < count {
        lemma_advance_reaches_end(d, count, e, j + 1);
    }
}

/// Law: playing a complete, non-looping file whose scaled elapsed time has
/// reached the last frame's timestamp stops the player and emits the final
/// frame exactly once: the step returns the final frame and afterwards the
/// player is stopped with nothing left to emit.
pub proof fn lemma_playback_completes(
    pre: MacroPlayer,
    now_us: u64,
    post: MacroPlayer,
    ret: Option<[u8; 64]>,
)
    requires
        spec_get_frame_post(pre, now_us, post, ret),
        pre.playing,
        !pre.looping,
        pre.data matches Some(v) && v@.len() == 16 + 72 * (pre.frame_count as int),
        pre.start_us is Some,
        pre.frame_count > 0,
        pre.frame_index < pre.frame_count,
        forall|i: int|
            0 <= i < pre.frame_count as int ==> spec_frame_ts(pre.data.unwrap()@, i)
                <= spec_scaled_elapsed(pre.start_us.unwrap(), now_us, pre.speed),
    ensures
        !post.playing,
        post.last_report is None,
        ret matches Some(rep) && rep@ == spec_frame_report(
            pre.data.unwrap()@,
            pre.frame_count as int - 1,
        ),
{
    let d = pre.data.unwrap()@;
    let count = pre.frame_count as int;
    let e = spec_scaled_elapsed(pre.start_us.unwrap(), now_us, pre.speed);
    lemma_advance_reaches_end(d, count, e, pre.frame_index as int);
}

} // verus!
