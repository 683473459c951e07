//! The 18 controller buttons, their USB wire positions, and the parsed
//! button state.
//!
//! The USB report carries the buttons as three bitmap bytes. The bit layout
//! is fixed by the wire format:
//!
//! byte 0: B=01 A=02 Y=04 X=08 R=10 ZR=20 Plus=40 R3=80
//! byte 1: DpadDown=01 DpadRight=02 DpadLeft=04 DpadUp=08 L=10 ZL=20 Minus=40 L3=80
//! byte 2: Home=01 Capture=02

use vstd::prelude::*;

verus! {

/// Button name enum for combo detection.
#[derive(Debug, Clone, Copy, PartialEq, Eq, Hash, Structural)]
pub enum Button {
    B,
    A,
    Y,
    X,
    R,
    ZR,
    Plus,
    R3,
    DpadDown,
    DpadRight,
    DpadLeft,
    DpadUp,
    L,
    ZL,
    Minus,
    L3,
    Home,
    Capture,
}

/// (byte index in the 3-byte button field, bitmask) of a button on the USB wire.
pub open spec fn spec_position(btn: Button) -> (int, u8) {
    match btn {
        Button::B => (0, 0x01),
        Button::A => (0, 0x02),
        Button::Y => (0, 0x04),
        Button::X => (0, 0x08),
        Button::R => (0, 0x10),
        Button::ZR => (0, 0x20),
        Button::Plus => (0, 0x40),
        Button::R3 => (0, 0x80),
        Button::DpadDown => (1, 0x01),
        Button::DpadRight => (1, 0x02),
        Button::DpadLeft => (1, 0x04),
        Button::DpadUp => (1, 0x08),
        Button::L => (1, 0x10),
        Button::ZL => (1, 0x20),
        Button::Minus => (1, 0x40),
        Button::L3 => (1, 0x80),
        Button::Home => (2, 0x01),
        Button::Capture => (2, 0x02),
    }
}

impl Button {
    /// (byte_index_in_button_field, bitmask) for raw report filtering.
    pub fn position(self) -> (r: (usize, u8))
        ensures
            (r.0 as int, r.1) == spec_position(self),
    {
        match self {
            Button::B => (0, 0x01),
            Button::A => (0, 0x02),
            Button::Y => (0, 0x04),
            Button::X => (0, 0x08),
            Button::R => (0, 0x10),
            Button::ZR => (0, 0x20),
            Button::Plus => (0, 0x40),
            Button::R3 => (0, 0x80),
            Button::DpadDown => (1, 0x01),
            Button::DpadRight => (1, 0x02),
            Button::DpadLeft => (1, 0x04),
            Button::DpadUp => (1, 0x08),
            Button::L => (1, 0x10),
            Button::ZL => (1, 0x20),
            Button::Minus => (1, 0x40),
            Button::L3 => (1, 0x80),
            Button::Home => (2, 0x01),
            Button::Capture => (2, 0x02),
        }
    }
}

/// All button states as booleans.
#[derive(Debug, Clone, Copy, PartialEq, Eq, Structural)]
pub struct ButtonState {
    pub b: bool,
    pub a: bool,
    pub y: bool,
    pub x: bool,
    pub r: bool,
    pub zr: bool,
    pub plus: bool,
    pub r3: bool,
    pub dpad_down: bool,
    pub dpad_right: bool,
    pub dpad_left: bool,
    pub dpad_up: bool,
    pub l: bool,
    pub zl: bool,
    pub minus: bool,
    pub l3: bool,
    pub home: bool,
    pub capture: bool,
}

impl ButtonState {
    /// The field selected by a button name.
    pub open spec fn spec_get(self, btn: Button) -> bool {
        match btn {
            Button::B => self.b,
            Button::A => self.a,
            Button::Y => self.y,
            Button::X => self.x,
            Button::R => self.r,
            Button::ZR => self.zr,
            Button::Plus => self.plus,
            Button::R3 => self.r3,
            Button::DpadDown => self.dpad_down,
            Button::DpadRight => self.dpad_right,
            Button::DpadLeft => self.dpad_left,
            Button::DpadUp => self.dpad_up,
            Button::L => self.l,
            Button::ZL => self.zl,
            Button::Minus => self.minus,
            Button::L3 => self.l3,
            Button::Home => self.home,
            Button::Capture => self.capture,
        }
    }

    /// The state with no button pressed.
    pub open spec fn spec_none_pressed() -> ButtonState {
        ButtonState {
            b: false,
            a: false,
            y: false,
            x: false,
            r: false,
            zr: false,
            plus: false,
            r3: false,
            dpad_down: false,
            dpad_right: false,
            dpad_left: false,
            dpad_up: false,
            l: false,
            zl: false,
            minus: false,
            l3: false,
            home: false,
            capture: false,
        }
    }

    pub fn get(&self, btn: Button) -> (r: bool)
        ensures
            r == self.spec_get(btn),
    {
        match btn {
            Button::B => self.b,
            Button::A => self.a,
            Button::Y => self.y,
            Button::X => self.x,
            Button::R => self.r,
            Button::ZR => self.zr,
            Button::Plus => self.plus,
            Button::R3 => self.r3,
            Button::DpadDown => self.dpad_down,
            Button::DpadRight => self.dpad_right,
            Button::DpadLeft => self.dpad_left,
            Button::DpadUp => self.dpad_up,
            Button::L => self.l,
            Button::ZL => self.zl,
            Button::Minus => self.minus,
            Button::L3 => self.l3,
            Button::Home => self.home,
            Button::Capture => self.capture,
        }
    }

    /// The state with the field of `btn` replaced by `val`.
    pub open spec fn spec_set(self, btn: Button, val: bool) -> ButtonState {
        match btn {
            Button::B => ButtonState { b: val, ..self },
            Button::A => ButtonState { a: val, ..self },
            Button::Y => ButtonState { y: val, ..self },
            Button::X => ButtonState { x: val, ..self },
            Button::R => ButtonState { r: val, ..self },
            Button::ZR => ButtonState { zr: val, ..self },
            Button::Plus => ButtonState { plus: val, ..self },
            Button::R3 => ButtonState { r3: val, ..self },
            Button::DpadDown => ButtonState { dpad_down: val, ..self },
            Button::DpadRight => ButtonState { dpad_right: val, ..self },
            Button::DpadLeft => ButtonState { dpad_left: val, ..self },
            Button::DpadUp => ButtonState { dpad_up: val, ..self },
            Button::L => ButtonState { l: val, ..self },
            Button::ZL => ButtonState { zl: val, ..self },
            Button::Minus => ButtonState { minus: val, ..self },
            Button::L3 => ButtonState { l3: val, ..self },
            Button::Home => ButtonState { home: val, ..self },
            Button::Capture => ButtonState { capture: val, ..self },
        }
    }

    pub fn set(&mut self, btn: Button, val: bool)
        ensures
            *final(self) == old(self).spec_set(btn, val),
    {
        let updated = match btn {
            Button::B => ButtonState { b: val, ..*self },
            Button::A => ButtonState { a: val, ..*self },
            Button::Y => ButtonState { y: val, ..*self },
            Button::X => ButtonState { x: val, ..*self },
            Button::R => ButtonState { r: val, ..*self },
            Button::ZR => ButtonState { zr: val, ..*self },
            Button::Plus => ButtonState { plus: val, ..*self },
            Button::R3 => ButtonState { r3: val, ..*self },
            Button::DpadDown => ButtonState { dpad_down: val, ..*self },
            Button::DpadRight => ButtonState { dpad_right: val, ..*self },
            Button::DpadLeft => ButtonState { dpad_left: val, ..*self },
            Button::DpadUp => ButtonState { dpad_up: val, ..*self },
            Button::L => ButtonState { l: val, ..*self },
            Button::ZL => ButtonState { zl: val, ..*self },
            Button::Minus => ButtonState { minus: val, ..*self },
            Button::L3 => ButtonState { l3: val, ..*self },
            Button::Home => ButtonState { home: val, ..*self },
            Button::Capture => ButtonState { capture: val, ..*self },
        };
        *self = updated;
    }
}


impl Default for ButtonState {
    fn default() -> (r: Self)
        ensures
            r == ButtonState::spec_none_pressed(),
    {
        ButtonState {
            b: false,
            a: false,
            y: false,
            x: false,
            r: false,
            zr: false,
            plus: false,
            r3: false,
            dpad_down: false,
            dpad_right: false,
            dpad_left: false,
            dpad_up: false,
            l: false,
            zl: false,
            minus: false,
            l3: false,
            home: false,
            capture: false,
        }
    }
}

} // verus!
