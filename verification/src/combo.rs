//! Combo detection state machine.
//!
//! Detects L3+R3+button chords on the live input stream and reports which
//! buttons to suppress from the forwarded report. Time enters only as the
//! caller-supplied monotonic timestamp in microseconds, so the whole machine
//! is a pure function of its state and its inputs.

use vstd::prelude::*;

use crate::buttons::{Button, ButtonState};

verus! {

/// Action triggered by a combo.
#[derive(Debug, Clone, Copy, PartialEq, Eq, Structural)]
pub enum ComboAction {
    ToggleMacroMode,
    ToggleRecording,
    PrevSlot,
    NextSlot,
    PlayMacro,
    StopPlayback,
}

/// Hold duration for the macro mode toggle, in microseconds.
pub const HOLD_DURATION_US: u64 = 500000;

/// Set of buttons to suppress from the forwarded report.
#[derive(Debug, Clone)]
pub struct SuppressedButtons {
    buttons: Vec<Button>,
}

impl View for SuppressedButtons {
    type V = Seq<Button>;

    closed spec fn view(&self) -> Seq<Button> {
        self.buttons@
    }
}

impl SuppressedButtons {
    /// The empty set.
    pub fn new() -> (r: Self)
        ensures
            r@ == Seq::<Button>::empty(),
    {
        SuppressedButtons { buttons: Vec::new() }
    }

    /// Add a button to the set. The set holds at most eight entries, enough
    /// for every button a combo can involve; later additions are dropped.
    pub fn add(&mut self, btn: Button)
        ensures
            final(self)@ == if old(self)@.len() < 8 {
                old(self)@.push(btn)
            } else {
                old(self)@
            },
    {
        if self.buttons.len() < 8 {
            self.buttons.push(btn);
        }
    }

    /// Whether the set holds a button.
    pub fn contains(&self, btn: Button) -> (r: bool)
        ensures
            r == self@.contains(btn),
    {
        let n = self.buttons.len();
        let mut i: usize = 0;
        while i < n
            invariant
                n == self.buttons.len(),
                i <= n,
                forall|j: int| 0 <= j < i ==> self@[j] != btn,
            decreases n - i,
        {
            if self.buttons[i] == btn {
                return true;
            }
            i = i + 1;
        }
        false
    }

    pub fn is_empty(&self) -> (r: bool)
        ensures
            r == (self@.len() == 0),
    {
        self.buttons.len() == 0
    }

    /// Filter button state: clear every suppressed button, leave the rest.
    pub fn filter_buttons(&self, buttons: &mut ButtonState)
        ensures
            *final(buttons) == spec_filtered(self@, *old(buttons)),
    {
        let out = ButtonState {
            b: buttons.b && !self.contains(Button::B),
            a: buttons.a && !self.contains(Button::A),
            y: buttons.y && !self.contains(Button::Y),
            x: buttons.x && !self.contains(Button::X),
            r: buttons.r && !self.contains(Button::R),
            zr: buttons.zr && !self.contains(Button::ZR),
            plus: buttons.plus && !self.contains(Button::Plus),
            r3: buttons.r3 && !self.contains(Button::R3),
            dpad_down: buttons.dpad_down && !self.contains(Button::DpadDown),
            dpad_right: buttons.dpad_right && !self.contains(Button::DpadRight),
            dpad_left: buttons.dpad_left && !self.contains(Button::DpadLeft),
            dpad_up: buttons.dpad_up && !self.contains(Button::DpadUp),
            l: buttons.l && !self.contains(Button::L),
            zl: buttons.zl && !self.contains(Button::ZL),
            minus: buttons.minus && !self.contains(Button::Minus),
            l3: buttons.l3 && !self.contains(Button::L3),
            home: buttons.home && !self.contains(Button::Home),
            capture: buttons.capture && !self.contains(Button::Capture),
        };
        *buttons = out;
    }

    /// The suppressed-button mask for button byte 0.
    fn sup_mask0(&self) -> (r: u8)
        ensures
            r == spec_sup_mask0(self@),
    {
        let mut m: u8 = 0;
        if self.contains(Button::B) {
            m = m + 0x01;
        }
        if self.contains(Button::A) {
            m = m + 0x02;
        }
        if self.contains(Button::Y) {
            m = m + 0x04;
        }
        if self.contains(Button::X) {
            m = m + 0x08;
        }
        if self.contains(Button::R) {
            m = m + 0x10;
        }
        if self.contains(Button::ZR) {
            m = m + 0x20;
        }
        if self.contains(Button::Plus) {
            m = m + 0x40;
        }
        if self.contains(Button::R3) {
            m = m + 0x80;
        }
        m
    }

    /// The suppressed-button mask for button byte 1.
    fn sup_mask1(&self) -> (r: u8)
        ensures
            r == spec_sup_mask1(self@),
    {
        let mut m: u8 = 0;
        if self.contains(Button::DpadDown) {
            m = m + 0x01;
        }
        if self.contains(Button::DpadRight) {
            m = m + 0x02;
        }
        if self.contains(Button::DpadLeft) {
            m = m + 0x04;
        }
        if self.contains(Button::DpadUp) {
            m = m + 0x08;
        }
        if self.contains(Button::L) {
            m = m + 0x10;
        }
        if self.contains(Button::ZL) {
            m = m + 0x20;
        }
        if self.contains(Button::Minus) {
            m = m + 0x40;
        }
        if self.contains(Button::L3) {
            m = m + 0x80;
        }
        m
    }

    /// The suppressed-button mask for button byte 2.
    fn sup_mask2(&self) -> (r: u8)
        ensures
            r == spec_sup_mask2(self@),
    {
        let mut m: u8 = 0;
        if self.contains(Button::Home) {
            m = m + 0x01;
        }
        if self.contains(Button::Capture) {
            m = m + 0x02;
        }
        m
    }

    /// Filter a raw HID report: zero out the suppressed button bits inside
    /// the three button bytes at offsets 3..6; every other byte is kept.
    pub fn filter_raw_report(&self, report: &mut [u8; 64])
        ensures
            forall|i: int| 0 <= i < 64 && !(3 <= i < 6) ==> final(report)@[i] == old(report)@[i],
            final(report)@[3] == (old(report)@[3] & !spec_sup_mask0(self@)),
            final(report)@[4] == (old(report)@[4] & !spec_sup_mask1(self@)),
            final(report)@[5] == (old(report)@[5] & !spec_sup_mask2(self@)),
    {
        let b0 = report[3] & !self.sup_mask0();
        let b1 = report[4] & !self.sup_mask1();
        let b2 = report[5] & !self.sup_mask2();
        report[3] = b0;
        report[4] = b1;
        report[5] = b2;
    }
}

/// A button state with every button of `s` cleared and the rest kept.
pub open spec fn spec_filtered(s: Seq<Button>, b: ButtonState) -> ButtonState {
    ButtonState {
        b: b.b && !s.contains(Button::B),
        a: b.a && !s.contains(Button::A),
        y: b.y && !s.contains(Button::Y),
        x: b.x && !s.contains(Button::X),
        r: b.r && !s.contains(Button::R),
        zr: b.zr && !s.contains(Button::ZR),
        plus: b.plus && !s.contains(Button::Plus),
        r3: b.r3 && !s.contains(Button::R3),
        dpad_down: b.dpad_down && !s.contains(Button::DpadDown),
        dpad_right: b.dpad_right && !s.contains(Button::DpadRight),
        dpad_left: b.dpad_left && !s.contains(Button::DpadLeft),
        dpad_up: b.dpad_up && !s.contains(Button::DpadUp),
        l: b.l && !s.contains(Button::L),
        zl: b.zl && !s.contains(Button::ZL),
        minus: b.minus && !s.contains(Button::Minus),
        l3: b.l3 && !s.contains(Button::L3),
        home: b.home && !s.contains(Button::Home),
        capture: b.capture && !s.contains(Button::Capture),
    }
}

/// Filtering reads back per button: a filtered state shows a button as
/// pressed exactly when it was pressed before and is not suppressed.
pub broadcast proof fn lemma_filtered_get(s: Seq<Button>, b: ButtonState, btn: Button)
    ensures
        #[trigger] spec_filtered(s, b).spec_get(btn) == (b.spec_get(btn) && !s.contains(btn)),
{
    match btn {
        Button::B => {},
        Button::A => {},
        Button::Y => {},
        Button::X => {},
        Button::R => {},
        Button::ZR => {},
        Button::Plus => {},
        Button::R3 => {},
        Button::DpadDown => {},
        Button::DpadRight => {},
        Button::DpadLeft => {},
        Button::DpadUp => {},
        Button::L => {},
        Button::ZL => {},
        Button::Minus => {},
        Button::L3 => {},
        Button::Home => {},
        Button::Capture => {},
    }
}

/// The union of the wire masks of the suppressed buttons that live in button
/// byte 0.
pub open spec fn spec_sup_mask0(s: Seq<Button>) -> u8 {
    ((if s.contains(Button::B) {
        1int
    } else {
        0
    }) + (if s.contains(Button::A) {
        2int
    } else {
        0
    }) + (if s.contains(Button::Y) {
        4int
    } else {
        0
    }) + (if s.contains(Button::X) {
        8int
    } else {
        0
    }) + (if s.contains(Button::R) {
        0x10int
    } else {
        0
    }) + (if s.contains(Button::ZR) {
        0x20int
    } else {
        0
    }) + (if s.contains(Button::Plus) {
        0x40int
    } else {
        0
    }) + (if s.contains(Button::R3) {
        0x80int
    } else {
        0
    })) as u8
}

/// The union of the wire masks of the suppressed buttons that live in button
/// byte 1.
pub open spec fn spec_sup_mask1(s: Seq<Button>) -> u8 {
    ((if s.contains(Button::DpadDown) {
        1int
    } else {
        0
    }) + (if s.contains(Button::DpadRight) {
        2int
    } else {
        0
    }) + (if s.contains(Button::DpadLeft) {
        4int
    } else {
        0
    }) + (if s.contains(Button::DpadUp) {
        8int
    } else {
        0
    }) + (if s.contains(Button::L) {
        0x10int
    } else {
        0
    }) + (if s.contains(Button::ZL) {
        0x20int
    } else {
        0
    }) + (if s.contains(Button::Minus) {
        0x40int
    } else {
        0
    }) + (if s.contains(Button::L3) {
        0x80int
    } else {
        0
    })) as u8
}

/// The union of the wire masks of the suppressed buttons that live in button
/// byte 2.
pub open spec fn spec_sup_mask2(s: Seq<Button>) -> u8 {
    ((if s.contains(Button::Home) {
        1int
    } else {
        0
    }) + (if s.contains(Button::Capture) {
        2int
    } else {
        0
    })) as u8
}

/// Whether both stick buttons are pressed.
pub open spec fn spec_base_held(b: ButtonState) -> bool {
    b.l3 && b.r3
}

/// Whether a button is one that takes part in a combo beyond the base chord.
pub open spec fn spec_combo_member(btn: Button) -> bool {
    btn == Button::DpadDown || btn == Button::DpadLeft || btn == Button::DpadRight || btn
        == Button::A || btn == Button::B
}

/// Which buttons the detector suppresses for a given input frame: the two
/// stick buttons always while the base chord is held, and each held
/// combo-participating button.
pub open spec fn spec_suppressed(b: ButtonState, btn: Button) -> bool {
    spec_base_held(b) && (btn == Button::L3 || btn == Button::R3 || (spec_combo_member(btn)
        && b.spec_get(btn)))
}

/// Combo detector state machine.
pub struct ComboDetector {
    pub macro_mode: bool,
    pub dpad_down_start: Option<u64>,
    pub prev_buttons: ButtonState,
    pub prev_base_held: bool,
}

/// The hold timer after one step: armed on a rising edge of "base chord and
/// D-pad Down together", cleared when the hold completes or the chord is
/// released, kept ticking otherwise.
pub open spec fn spec_next_timer(d: ComboDetector, b: ButtonState, now_us: u64) -> Option<u64> {
    if !spec_base_held(b) || !b.dpad_down {
        None
    } else if !(d.prev_base_held && d.prev_buttons.dpad_down) {
        Some(now_us)
    } else if d.dpad_down_start matches Some(t0) && now_us >= t0 && now_us - t0
        >= HOLD_DURATION_US {
        None
    } else {
        d.dpad_down_start
    }
}

/// Whether the hold of base chord plus D-pad Down completes on this frame.
pub open spec fn spec_hold_fires(d: ComboDetector, b: ButtonState, now_us: u64) -> bool {
    spec_base_held(b) && b.dpad_down && (d.prev_base_held && d.prev_buttons.dpad_down)
        && (d.dpad_down_start matches Some(t0) && now_us >= t0 && now_us - t0 >= HOLD_DURATION_US)
}

/// The action emitted for one input frame, if any. The completed hold
/// outranks the edge-triggered combos; among simultaneous edges the order
/// B, A, D-pad Right, D-pad Left decides; the recording toggle fires only on
/// a rising edge of the bare base chord in macro mode.
pub open spec fn spec_action(d: ComboDetector, b: ButtonState, now_us: u64) -> Option<
    ComboAction,
> {
    if !spec_base_held(b) {
        None
    } else if spec_hold_fires(d, b, now_us) {
        Some(ComboAction::ToggleMacroMode)
    } else if b.b && !d.prev_buttons.b {
        Some(ComboAction::StopPlayback)
    } else if b.a && !d.prev_buttons.a {
        Some(ComboAction::PlayMacro)
    } else if b.dpad_right && !d.prev_buttons.dpad_right {
        Some(ComboAction::NextSlot)
    } else if b.dpad_left && !d.prev_buttons.dpad_left {
        Some(ComboAction::PrevSlot)
    } else if d.macro_mode && !d.prev_base_held && !(b.dpad_down || b.dpad_left || b.dpad_right
        || b.a || b.b) {
        Some(ComboAction::ToggleRecording)
    } else {
        None
    }
}

impl ComboDetector {
    pub fn new() -> (r: Self)
        ensures
            r.macro_mode == false,
            r.dpad_down_start is None,
            r.prev_buttons == ButtonState::spec_none_pressed(),
            r.prev_base_held == false,
    {
        ComboDetector {
            macro_mode: false,
            dpad_down_start: None,
            prev_buttons: ButtonState::default(),
            prev_base_held: false,
        }
    }

    /// Process one frame of button state at monotonic time `now_us`.
    /// Returns the action to run, if any, and the buttons to suppress from
    /// the forwarded report.
    pub fn update(&mut self, buttons: &ButtonState, now_us: u64) -> (r: (
        Option<ComboAction>,
        SuppressedButtons,
    ))
        ensures
            r.0 == spec_action(*old(self), *buttons, now_us),
            forall|btn: Button| #[trigger]
                r.1@.contains(btn) == spec_suppressed(*buttons, btn),
            final(self).macro_mode == old(self).macro_mode,
            final(self).dpad_down_start == spec_next_timer(*old(self), *buttons, now_us),
            final(self).prev_buttons == *buttons,
            final(self).prev_base_held == spec_base_held(*buttons),
    {
        let base_held = buttons.l3 && buttons.r3;
        let mut action: Option<ComboAction> = None;
        let mut suppressed = SuppressedButtons::new();
        let mut timer = self.dpad_down_start;

        if base_held {
            // Always suppress L3+R3 when both held
            suppressed.add(Button::L3);
            suppressed.add(Button::R3);

            // Check D-pad Down hold for macro mode toggle
            let dpad_down = buttons.dpad_down;
            if dpad_down {
                suppressed.add(Button::DpadDown);
                if !(self.prev_base_held && self.prev_buttons.dpad_down) {
                    timer = Some(now_us);
                } else {
                    match timer {
                        Some(start) => {
                            if now_us >= start && now_us - start >= HOLD_DURATION_US {
                                action = Some(ComboAction::ToggleMacroMode);
                                timer = None;
                            }
                        },
                        None => {},
                    }
                }
            } else {
                timer = None;
            }

            // Check instant combos (edge-triggered); the completed hold wins
            if action.is_none() {
                if buttons.b && !self.prev_buttons.b {
                    action = Some(ComboAction::StopPlayback);
                } else if buttons.a && !self.prev_buttons.a {
                    action = Some(ComboAction::PlayMacro);
                } else if buttons.dpad_right && !self.prev_buttons.dpad_right {
                    action = Some(ComboAction::NextSlot);
                } else if buttons.dpad_left && !self.prev_buttons.dpad_left {
                    action = Some(ComboAction::PrevSlot);
                }
            }
            if buttons.dpad_left {
                suppressed.add(Button::DpadLeft);
            }
            if buttons.dpad_right {
                suppressed.add(Button::DpadRight);
            }
            if buttons.a {
                suppressed.add(Button::A);
            }
            if buttons.b {
                suppressed.add(Button::B);
            }

            // In macro mode, the bare base chord toggles recording on its
            // rising edge
            if action.is_none() && self.macro_mode && !self.prev_base_held {
                let any_combo_btn = dpad_down || buttons.dpad_left || buttons.dpad_right
                    || buttons.a || buttons.b;
                if !any_combo_btn {
                    action = Some(ComboAction::ToggleRecording);
                }
            }
        } else {
            timer = None;
        }

        let updated = ComboDetector {
            macro_mode: self.macro_mode,
            dpad_down_start: timer,
            prev_buttons: *buttons,
            prev_base_held: base_held,
        };
        *self = updated;

        proof {
            broadcast use vstd::seq_lib::lemma_seq_contains_after_push;

            assert forall|btn: Button| #[trigger]
                suppressed@.contains(btn) == spec_suppressed(*buttons, btn) by {}
        }
        (action, suppressed)
    }
}

/// The action mapped to each edge-triggered instant combo button.
pub open spec fn spec_instant_action(btn: Button) -> ComboAction
    recommends
        btn == Button::A || btn == Button::B || btn == Button::DpadLeft || btn
            == Button::DpadRight,
{
    match btn {
        Button::A => ComboAction::PlayMacro,
        Button::B => ComboAction::StopPlayback,
        Button::DpadLeft => ComboAction::PrevSlot,
        Button::DpadRight => ComboAction::NextSlot,
        _ => ComboAction::StopPlayback,
    }
}

/// Law: outside macro mode, a frame that presses both stick buttons and
/// nothing else masks exactly those two buttons and emits no action,
/// whatever the detector's previous state. (In macro mode the same frame
/// can toggle recording on the chord's rising edge, so it is left out.)
pub proof fn lemma_base_chord_alone(d: ComboDetector, b: ButtonState, now_us: u64, btn: Button)
    requires
        !d.macro_mode,
        b == (ButtonState { l3: true, r3: true, ..ButtonState::spec_none_pressed() }),
    ensures
        spec_action(d, b, now_us) is None,
        spec_suppressed(b, btn) == (btn == Button::L3 || btn == Button::R3),
{
}

/// Law: with the base chord and D-pad Down held on this frame and the
/// previous one and the hold timer armed at `t0`, the macro-mode toggle
/// fires exactly when the hold has lasted the full duration, and firing
/// clears the timer while a shorter hold keeps it.
pub proof fn lemma_hold_fire(d: ComboDetector, b: ButtonState, now_us: u64, t0: u64)
    requires
        d.dpad_down_start == Some(t0),
        spec_base_held(b) && b.dpad_down,
        d.prev_base_held && d.prev_buttons.dpad_down,
        now_us >= t0,
    ensures
        (spec_action(d, b, now_us) == Some(ComboAction::ToggleMacroMode)) == (now_us - t0
            >= HOLD_DURATION_US),
        now_us - t0 >= HOLD_DURATION_US ==> spec_next_timer(d, b, now_us) is None,
        now_us - t0 < HOLD_DURATION_US ==> spec_next_timer(d, b, now_us) == Some(t0),
{
}

/// Law: once the toggle has fired and cleared the timer, the chord being
/// still held neither re-arms the timer nor fires again, so one hold emits
/// the toggle exactly once.
pub proof fn lemma_hold_fires_once(d: ComboDetector, b: ButtonState, now_us: u64)
    requires
        d.dpad_down_start is None,
        d.prev_base_held && d.prev_buttons.dpad_down,
        spec_base_held(b) && b.dpad_down,
    ensures
        spec_action(d, b, now_us) != Some(ComboAction::ToggleMacroMode),
        spec_next_timer(d, b, now_us) is None,
{
}

/// Law: a hold shorter than the full duration emits nothing, as long as no
/// edge-triggered combo button takes part in the frame.
pub proof fn lemma_short_hold_no_action(d: ComboDetector, b: ButtonState, now_us: u64, t0: u64)
    requires
        d.dpad_down_start == Some(t0),
        spec_base_held(b) && b.dpad_down,
        d.prev_base_held && d.prev_buttons.dpad_down,
        now_us >= t0,
        now_us - t0 < HOLD_DURATION_US,
        !b.a && !b.b && !b.dpad_left && !b.dpad_right,
    ensures
        spec_action(d, b, now_us) is None,
{
}

/// Law: with the base chord held (and already held on the previous frame),
/// a rising edge on one instant-combo button, alone, emits exactly its
/// mapped action, and the button is masked.
pub proof fn lemma_instant_combo_fires(d: ComboDetector, b: ButtonState, now_us: u64, btn: Button)
    requires
        spec_base_held(b),
        !spec_hold_fires(d, b, now_us),
        btn == Button::A || btn == Button::B || btn == Button::DpadLeft || btn
            == Button::DpadRight,
        b.spec_get(btn) && !d.prev_buttons.spec_get(btn),
        forall|o: Button|
            (o == Button::A || o == Button::B || o == Button::DpadLeft || o == Button::DpadRight)
                && o != btn ==> !(b.spec_get(o) && !d.prev_buttons.spec_get(o)),
    ensures
        spec_action(d, b, now_us) == Some(spec_instant_action(btn)),
        spec_suppressed(b, btn),
{
    if btn != Button::A {
        assert(!(b.spec_get(Button::A) && !d.prev_buttons.spec_get(Button::A)));
    }
    if btn != Button::B {
        assert(!(b.spec_get(Button::B) && !d.prev_buttons.spec_get(Button::B)));
    }
    if btn != Button::DpadLeft {
        assert(!(b.spec_get(Button::DpadLeft) && !d.prev_buttons.spec_get(Button::DpadLeft)));
    }
    if btn != Button::DpadRight {
        assert(!(b.spec_get(Button::DpadRight) && !d.prev_buttons.spec_get(Button::DpadRight)));
    }
}

/// Law: an instant-combo button that stays held does not emit its action
/// again on later frames.
pub proof fn lemma_instant_combo_no_refire(d: ComboDetector, b: ButtonState, now_us: u64, btn: Button)
    requires
        btn == Button::A || btn == Button::B || btn == Button::DpadLeft || btn
            == Button::DpadRight,
        b.spec_get(btn) && d.prev_buttons.spec_get(btn),
    ensures
        spec_action(d, b, now_us) != Some(spec_instant_action(btn)),
{
}


} // verus!
