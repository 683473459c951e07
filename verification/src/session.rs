//! The session snapshot published to the web interface.
//!
//! A snapshot is compared structurally on update; only a genuine change
//! marks the state dirty, and popping hands the snapshot out exactly once
//! per change.

use vstd::prelude::*;

verus! {

/// A value snapshot of the bridge's session state.
#[derive(Debug)]
pub struct StateSnapshot {
    pub macro_mode: bool,
    pub recording: bool,
    pub playing: bool,
    pub current_slot: usize,
    pub slot_count: usize,
    pub current_macro_name: Option<String>,
    pub usb_connected: bool,
    pub bt_connected: bool,
    /// Playback speed in hundredths; 100 is real time.
    pub playback_speed: u32,
    pub looping: bool,
}

/// Field-by-field equality of two snapshots; names compare by content.
pub open spec fn spec_snapshot_eq(a: StateSnapshot, b: StateSnapshot) -> bool {
    &&& a.macro_mode == b.macro_mode
    &&& a.recording == b.recording
    &&& a.playing == b.playing
    &&& a.current_slot == b.current_slot
    &&& a.slot_count == b.slot_count
    &&& (match (a.current_macro_name, b.current_macro_name) {
        (Some(x), Some(y)) => x@ == y@,
        (None, None) => true,
        _ => false,
    })
    &&& a.usb_connected == b.usb_connected
    &&& a.bt_connected == b.bt_connected
    &&& a.playback_speed == b.playback_speed
    &&& a.looping == b.looping
}

impl Clone for StateSnapshot {
    fn clone(&self) -> (r: Self)
        ensures
            r == *self,
    {
        StateSnapshot {
            macro_mode: self.macro_mode,
            recording: self.recording,
            playing: self.playing,
            current_slot: self.current_slot,
            slot_count: self.slot_count,
            current_macro_name: match &self.current_macro_name {
                Some(n) => Some(n.clone()),
                None => None,
            },
            usb_connected: self.usb_connected,
            bt_connected: self.bt_connected,
            playback_speed: self.playback_speed,
            looping: self.looping,
        }
    }
}

impl PartialEq for StateSnapshot {
    fn eq(&self, other: &Self) -> (r: bool) {
        let names_equal = match (&self.current_macro_name, &other.current_macro_name) {
            (Some(a), Some(b)) => a.eq(b),
            (None, None) => true,
            _ => false,
        };
        self.macro_mode == other.macro_mode && self.recording == other.recording && self.playing
            == other.playing && self.current_slot == other.current_slot && self.slot_count
            == other.slot_count && names_equal && self.usb_connected == other.usb_connected
            && self.bt_connected == other.bt_connected && self.playback_speed
            == other.playback_speed && self.looping == other.looping
    }
}

impl vstd::std_specs::cmp::PartialEqSpecImpl for StateSnapshot {
    open spec fn obeys_eq_spec() -> bool {
        true
    }

    open spec fn eq_spec(&self, other: &StateSnapshot) -> bool {
        spec_snapshot_eq(*self, *other)
    }
}

impl StateSnapshot {
    /// The snapshot published before anything is known: everything off and
    /// real-time playback speed.
    pub fn initial() -> (r: Self)
        ensures
            !r.macro_mode,
            !r.recording,
            !r.playing,
            r.current_slot == 0,
            r.slot_count == 0,
            r.current_macro_name is None,
            !r.usb_connected,
            !r.bt_connected,
            r.playback_speed == 100u32,
            !r.looping,
    {
        StateSnapshot {
            macro_mode: false,
            recording: false,
            playing: false,
            current_slot: 0,
            slot_count: 0,
            current_macro_name: None,
            usb_connected: false,
            bt_connected: false,
            playback_speed: 100,
            looping: false,
        }
    }
}

/// The published session state: the latest snapshot and whether it has
/// changed since it was last popped. The caller serialises access.
pub struct MitmState {
    pub inner: StateSnapshot,
    pub changed: bool,
}

/// The state after an update: a snapshot equal to the current one changes
/// nothing; a differing one replaces it and marks the state dirty.
pub open spec fn spec_updated(m: MitmState, snapshot: StateSnapshot) -> MitmState {
    if spec_snapshot_eq(m.inner, snapshot) {
        m
    } else {
        MitmState { inner: snapshot, changed: true }
    }
}

/// The state and result of one pop: a dirty state hands its snapshot out
/// and comes back clean; a clean one hands out nothing.
pub open spec fn spec_popped(m: MitmState) -> (MitmState, Option<StateSnapshot>) {
    if m.changed {
        (MitmState { inner: m.inner, changed: false }, Some(m.inner))
    } else {
        (m, None)
    }
}

impl MitmState {
    pub fn new() -> (r: Self)
        ensures
            !r.changed,
            !r.inner.macro_mode,
            !r.inner.recording,
            !r.inner.playing,
            r.inner.current_slot == 0,
            r.inner.slot_count == 0,
            r.inner.current_macro_name is None,
            !r.inner.usb_connected,
            !r.inner.bt_connected,
            r.inner.playback_speed == 100u32,
            !r.inner.looping,
    {
        MitmState { inner: StateSnapshot::initial(), changed: false }
    }

    /// Publish a new snapshot; only a genuine change marks the state dirty.
    pub fn update(&mut self, snapshot: StateSnapshot)
        ensures
            *final(self) == spec_updated(*old(self), snapshot),
    {
        if !(self.inner == snapshot) {
            self.inner = snapshot;
            self.changed = true;
        }
    }

    /// The current snapshot.
    pub fn snapshot(&self) -> (r: StateSnapshot)
        ensures
            r == self.inner,
    {
        self.inner.clone()
    }

    /// Return the snapshot if it changed since the last pop, else nothing;
    /// the dirty mark is cleared either way it was set.
    pub fn pop_if_changed(&mut self) -> (r: Option<StateSnapshot>)
        ensures
            (*final(self), r) == spec_popped(*old(self)),
    {
        if self.changed {
            self.changed = false;
            Some(self.inner.clone())
        } else {
            None
        }
    }
}

/// Law: after a genuine field change is published, the first pop returns
/// the new snapshot and the next pop returns nothing until another change
/// is published.
pub proof fn lemma_snapshot_published_once(m: MitmState, s: StateSnapshot)
    requires
        !spec_snapshot_eq(m.inner, s),
    ensures
        ({
            let m1 = spec_updated(m, s);
            let (m2, r1) = spec_popped(m1);
            let (m3, r2) = spec_popped(m2);
            &&& r1 == Some(s)
            &&& r2 is None
            &&& m3 == m2
            &&& spec_popped(spec_updated(m2, s)).1 is None
        }),
{
}

} // verus!
