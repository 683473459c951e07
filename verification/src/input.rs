//! HID report parsing and USB-to-Bluetooth report building.
//!
//! USB HID report format (64 bytes):
//!   [0]     = Report ID (0x09)
//!   [1]     = Counter
//!   [2]     = Mode byte
//!   [3..6]  = Button bitfields (3 bytes)
//!   [6..9]  = Left stick (12-bit packed X/Y)
//!   [9..12] = Right stick (12-bit packed X/Y)
//!   [12]    = Unknown
//!   [13]    = Left trigger
//!   [14]    = Right trigger

use vstd::prelude::*;

use crate::buttons::{spec_position, Button, ButtonState};

verus! {

/// Unpack two 12-bit values from three bytes of nibble-interleaved
/// little-endian packing: `[lo8_a] [hi4_a | lo4_b] [hi8_b]`.
pub open spec fn spec_unpack_12bit(b0: u8, b1: u8, b2: u8) -> (u16, u16) {
    (
        (b0 as u16) | (((b1 & 0x0F) as u16) << 8),
        ((b1 >> 4) as u16) | ((b2 as u16) << 4),
    )
}

/// Pack two 12-bit values into the three-byte wire triplet.
pub open spec fn spec_pack_12bit(x: u16, y: u16) -> (u8, u8, u8) {
    (
        (x & 0xFF) as u8,
        (((x >> 8) & 0x0F) as u8) | (((y & 0x0F) as u8) << 4),
        ((y >> 4) & 0xFF) as u8,
    )
}

/// Unpack two 12-bit values from 3 bytes (little-endian nibble packing).
pub fn unpack_12bit_triplet(b0: u8, b1: u8, b2: u8) -> (r: (u16, u16))
    ensures
        r == spec_unpack_12bit(b0, b1, b2),
{
    let a = (b0 as u16) | (((b1 & 0x0F) as u16) << 8);
    let b = ((b1 >> 4) as u16) | ((b2 as u16) << 4);
    (a, b)
}

/// Pack two 12-bit values into 3 bytes (little-endian nibble packing).
pub fn pack_12bit_triplet(x: u16, y: u16) -> (r: (u8, u8, u8))
    ensures
        r == spec_pack_12bit(x, y),
{
    (
        (x & 0xFF) as u8,
        (((x >> 8) & 0x0F) as u8) | (((y & 0x0F) as u8) << 4),
        ((y >> 4) & 0xFF) as u8,
    )
}

/// Law: packing any pair of 12-bit values and unpacking the triplet gives
/// the pair back unchanged.
pub proof fn lemma_pack_unpack_roundtrip(x: u16, y: u16)
    requires
        x < 4096,
        y < 4096,
    ensures
        ({
            let (b0, b1, b2) = spec_pack_12bit(x, y);
            spec_unpack_12bit(b0, b1, b2) == (x, y)
        }),
{
    let (b0, b1, b2) = spec_pack_12bit(x, y);
    assert(spec_unpack_12bit(b0, b1, b2) == (x, y)) by {
        assert(x < 4096 && y < 4096 ==> {
            let c0 = (x & 0xFF) as u8;
            let c1 = (((x >> 8) & 0x0F) as u8) | (((y & 0x0F) as u8) << 4);
            let c2 = ((y >> 4) & 0xFF) as u8;
            ((c0 as u16) | (((c1 & 0x0F) as u16) << 8)) == x && (((c1 >> 4) as u16) | ((c2
                as u16) << 4)) == y
        }) by (bit_vector);
    }
}

/// Remap a trigger value from the raw range [36..240] to [0..255]: values
/// outside the range clamp, values inside rescale linearly.
pub open spec fn spec_remap_trigger(value: u8) -> u8 {
    let v = value as int;
    let c: int = if v < 36 {
        36
    } else if v > 240 {
        240
    } else {
        v
    };
    (((c - 36) * 255) / 204) as u8
}

/// Remap trigger value from raw range [36..240] to [0..255].
pub fn remap_trigger_value(value: u8) -> (r: u8)
    ensures
        r == spec_remap_trigger(value),
{
    let v = value as u16;
    let clamped: u16 = if v < 36 {
        36
    } else if v > 240 {
        240
    } else {
        v
    };
    (((clamped - 36) * 255) / 204) as u8
}

/// The button state encoded by the three USB button bytes.
pub open spec fn spec_parse_buttons(b0: u8, b1: u8, b2: u8) -> ButtonState {
    ButtonState {
        b: b0 & 0x01 != 0,
        a: b0 & 0x02 != 0,
        y: b0 & 0x04 != 0,
        x: b0 & 0x08 != 0,
        r: b0 & 0x10 != 0,
        zr: b0 & 0x20 != 0,
        plus: b0 & 0x40 != 0,
        r3: b0 & 0x80 != 0,
        dpad_down: b1 & 0x01 != 0,
        dpad_right: b1 & 0x02 != 0,
        dpad_left: b1 & 0x04 != 0,
        dpad_up: b1 & 0x08 != 0,
        l: b1 & 0x10 != 0,
        zl: b1 & 0x20 != 0,
        minus: b1 & 0x40 != 0,
        l3: b1 & 0x80 != 0,
        home: b2 & 0x01 != 0,
        capture: b2 & 0x02 != 0,
    }
}

/// Reading any button out of the parsed state is reading its own wire bit.
pub proof fn lemma_parse_buttons_get(b0: u8, b1: u8, b2: u8, btn: Button)
    ensures
        spec_parse_buttons(b0, b1, b2).spec_get(btn) == ({
            let (idx, mask) = spec_position(btn);
            let byte = if idx == 0 {
                b0
            } else if idx == 1 {
                b1
            } else {
                b2
            };
            byte & mask != 0
        }),
{
}

/// The three button bytes of a report that holds exactly one pressed button.
pub open spec fn spec_single_button_bytes(btn: Button) -> (u8, u8, u8) {
    let (idx, mask) = spec_position(btn);
    (
        if idx == 0 {
            mask
        } else {
            0
        },
        if idx == 1 {
            mask
        } else {
            0
        },
        if idx == 2 {
            mask
        } else {
            0
        },
    )
}

/// Law: a report whose button bytes carry exactly the wire bit of `btn`
/// parses to a state in which `btn`, and only `btn`, reads as pressed.
pub proof fn lemma_single_button_roundtrip(btn: Button, other: Button)
    ensures
        ({
            let (b0, b1, b2) = spec_single_button_bytes(btn);
            spec_parse_buttons(b0, b1, b2).spec_get(other) == (other == btn)
        }),
{
    let (b0, b1, b2) = spec_single_button_bytes(btn);
    let (bi, bm) = spec_position(btn);
    let (oi, om) = spec_position(other);
    lemma_parse_buttons_get(b0, b1, b2, other);
    assert(bm == 1 || bm == 2 || bm == 4 || bm == 8 || bm == 0x10 || bm == 0x20 || bm == 0x40
        || bm == 0x80);
    assert(om == 1 || om == 2 || om == 4 || om == 8 || om == 0x10 || om == 0x20 || om == 0x40
        || om == 0x80);
    if other == btn {
        assert(forall|m: u8|
            m == 1 || m == 2 || m == 4 || m == 8 || m == 0x10 || m == 0x20 || m == 0x40 || m
                == 0x80 ==> #[trigger] (m & m) != 0) by (bit_vector);
    } else {
        assert(spec_position(btn) == spec_position(other) ==> btn == other);
        if oi == bi {
            assert(forall|m1: u8, m2: u8|
                (m1 == 1 || m1 == 2 || m1 == 4 || m1 == 8 || m1 == 0x10 || m1 == 0x20 || m1
                    == 0x40 || m1 == 0x80) && (m2 == 1 || m2 == 2 || m2 == 4 || m2 == 8 || m2
                    == 0x10 || m2 == 0x20 || m2 == 0x40 || m2 == 0x80) && m1 != m2
                    ==> #[trigger] (m1 & m2) == 0) by (bit_vector);
        } else {
            assert(forall|m: u8| #[trigger] (0u8 & m) == 0) by (bit_vector);
        }
    }
}

/// Parsed input state from a USB HID report.
#[derive(Clone, Copy, Debug)]
pub struct InputState {
    pub buttons: ButtonState,
    /// Raw 3 button bytes from the USB report (for combo filtering).
    pub buttons_raw: [u8; 3],
    /// Left stick raw 12-bit values.
    pub left_stick_raw: (u16, u16),
    /// Right stick raw 12-bit values.
    pub right_stick_raw: (u16, u16),
    /// Left trigger (0-255 after remap).
    pub left_trigger: u8,
    /// Right trigger (0-255 after remap).
    pub right_trigger: u8,
}

impl Default for InputState {
    fn default() -> (r: Self)
        ensures
            r.buttons == ButtonState::spec_none_pressed(),
            r.buttons_raw@ == seq![0u8, 0u8, 0u8],
            r.left_stick_raw == (0u16, 0u16),
            r.right_stick_raw == (0u16, 0u16),
            r.left_trigger == 0u8,
            r.right_trigger == 0u8,
    {
        let raw: [u8; 3] = [0, 0, 0];
        proof {
            assert(raw@ =~= seq![0u8, 0u8, 0u8]);
        }
        InputState {
            buttons: ButtonState::default(),
            buttons_raw: raw,
            left_stick_raw: (0, 0),
            right_stick_raw: (0, 0),
            left_trigger: 0,
            right_trigger: 0,
        }
    }
}

/// Parse a 64-byte USB HID report into an InputState.
pub fn parse_hid_report(report: &[u8; 64]) -> (r: InputState)
    ensures
        r.buttons == spec_parse_buttons(report@[3], report@[4], report@[5]),
        r.buttons_raw@ == seq![report@[3], report@[4], report@[5]],
        r.left_stick_raw == spec_unpack_12bit(report@[6], report@[7], report@[8]),
        r.right_stick_raw == spec_unpack_12bit(report@[9], report@[10], report@[11]),
        r.left_trigger == spec_remap_trigger(report@[13]),
        r.right_trigger == spec_remap_trigger(report@[14]),
{
    let b0 = report[3];
    let b1 = report[4];
    let b2 = report[5];

    let buttons = ButtonState {
        b: b0 & 0x01 != 0,
        a: b0 & 0x02 != 0,
        y: b0 & 0x04 != 0,
        x: b0 & 0x08 != 0,
        r: b0 & 0x10 != 0,
        zr: b0 & 0x20 != 0,
        plus: b0 & 0x40 != 0,
        r3: b0 & 0x80 != 0,
        dpad_down: b1 & 0x01 != 0,
        dpad_right: b1 & 0x02 != 0,
        dpad_left: b1 & 0x04 != 0,
        dpad_up: b1 & 0x08 != 0,
        l: b1 & 0x10 != 0,
        zl: b1 & 0x20 != 0,
        minus: b1 & 0x40 != 0,
        l3: b1 & 0x80 != 0,
        home: b2 & 0x01 != 0,
        capture: b2 & 0x02 != 0,
    };

    let (lx, ly) = unpack_12bit_triplet(report[6], report[7], report[8]);
    let (rx, ry) = unpack_12bit_triplet(report[9], report[10], report[11]);

    let raw: [u8; 3] = [b0, b1, b2];
    proof {
        assert(raw@ =~= seq![report@[3], report@[4], report@[5]]);
    }

    InputState {
        buttons,
        buttons_raw: raw,
        left_stick_raw: (lx, ly),
        right_stick_raw: (rx, ry),
        left_trigger: remap_trigger_value(report[13]),
        right_trigger: remap_trigger_value(report[14]),
    }
}

/// Byte 4 of the Bluetooth report (right-side buttons):
/// Y=01 X=02 B=04 A=08 R=40 ZR=80.
pub open spec fn spec_bt_byte_right(b: ButtonState) -> u8 {
    ((if b.y {
        1int
    } else {
        0
    }) + (if b.x {
        2int
    } else {
        0
    }) + (if b.b {
        4int
    } else {
        0
    }) + (if b.a {
        8int
    } else {
        0
    }) + (if b.r {
        0x40int
    } else {
        0
    }) + (if b.zr {
        0x80int
    } else {
        0
    })) as u8
}

/// Byte 5 of the Bluetooth report (shared buttons):
/// Minus=01 Plus=02 R3=04 L3=08 Home=10 Capture=20.
pub open spec fn spec_bt_byte_shared(b: ButtonState) -> u8 {
    ((if b.minus {
        1int
    } else {
        0
    }) + (if b.plus {
        2int
    } else {
        0
    }) + (if b.r3 {
        4int
    } else {
        0
    }) + (if b.l3 {
        8int
    } else {
        0
    }) + (if b.home {
        0x10int
    } else {
        0
    }) + (if b.capture {
        0x20int
    } else {
        0
    })) as u8
}

/// Byte 6 of the Bluetooth report (left-side buttons):
/// DpadDown=01 DpadUp=02 DpadRight=04 DpadLeft=08 L=40 ZL=80.
pub open spec fn spec_bt_byte_left(b: ButtonState) -> u8 {
    ((if b.dpad_down {
        1int
    } else {
        0
    }) + (if b.dpad_up {
        2int
    } else {
        0
    }) + (if b.dpad_right {
        4int
    } else {
        0
    }) + (if b.dpad_left {
        8int
    } else {
        0
    }) + (if b.l {
        0x40int
    } else {
        0
    }) + (if b.zl {
        0x80int
    } else {
        0
    })) as u8
}


/// Compute byte 4 of the Bluetooth report from the button state.
fn bt_byte_right(b: &ButtonState) -> (r: u8)
    ensures
        r == spec_bt_byte_right(*b),
{
    let mut v: u8 = 0;
    if b.y {
        v = v + 0x01;
    }
    if b.x {
        v = v + 0x02;
    }
    if b.b {
        v = v + 0x04;
    }
    if b.a {
        v = v + 0x08;
    }
    if b.r {
        v = v + 0x40;
    }
    if b.zr {
        v = v + 0x80;
    }
    v
}

/// Compute byte 5 of the Bluetooth report from the button state.
fn bt_byte_shared(b: &ButtonState) -> (r: u8)
    ensures
        r == spec_bt_byte_shared(*b),
{
    let mut v: u8 = 0;
    if b.minus {
        v = v + 0x01;
    }
    if b.plus {
        v = v + 0x02;
    }
    if b.r3 {
        v = v + 0x04;
    }
    if b.l3 {
        v = v + 0x08;
    }
    if b.home {
        v = v + 0x10;
    }
    if b.capture {
        v = v + 0x20;
    }
    v
}

/// Compute byte 6 of the Bluetooth report from the button state.
fn bt_byte_left(b: &ButtonState) -> (r: u8)
    ensures
        r == spec_bt_byte_left(*b),
{
    let mut v: u8 = 0;
    if b.dpad_down {
        v = v + 0x01;
    }
    if b.dpad_up {
        v = v + 0x02;
    }
    if b.dpad_right {
        v = v + 0x04;
    }
    if b.dpad_left {
        v = v + 0x08;
    }
    if b.l {
        v = v + 0x40;
    }
    if b.zl {
        v = v + 0x80;
    }
    v
}

/// Map a calibrated stick value in [-100, 100] to a 12-bit axis with centre
/// 2048: -100 maps to 0, 0 to 2048, and 100 clamps to 4095.
pub open spec fn spec_axis(c: int) -> u16
    recommends
        -100 <= c <= 100,
{
    let v = ((c + 100) * 2048) / 100;
    if v > 4095 {
        4095u16
    } else {
        v as u16
    }
}

/// Convert one calibrated stick value to its 12-bit wire axis.
pub fn axis_to_u12(c: i16) -> (r: u16)
    requires
        -100 <= c <= 100,
    ensures
        r == spec_axis(c as int),
        r <= 4095,
{
    let shifted: u32 = (c as i32 + 100) as u32;
    let v: u32 = (shifted * 2048) / 100;
    if v > 4095 {
        4095
    } else {
        v as u16
    }
}

/// Build the Bluetooth 0x30 input report from a parsed input state and the
/// two calibrated stick pairs (each component in [-100, 100]).
///
/// Layout (50 bytes):
///   [0]  = 0xA1 (HID transaction header)
///   [1]  = 0x30 (standard full input report ID)
///   [2]  = timer
///   [3]  = battery/connection info (0x90)
///   [4..7]   = the three Bluetooth button bytes
///   [7..10]  = left stick (12-bit packed, centre = 0x800)
///   [10..13] = right stick
///   [13] = vibrator byte (0xB0)
///   [14..50] = neutral IMU region (zero)
#[verifier::rlimit(60)]
pub fn build_bt_report(
    input: &InputState,
    left_cal: (i16, i16),
    right_cal: (i16, i16),
    timer: u8,
) -> (r: [u8; 50])
    requires
        -100 <= left_cal.0 <= 100,
        -100 <= left_cal.1 <= 100,
        -100 <= right_cal.0 <= 100,
        -100 <= right_cal.1 <= 100,
    ensures
        r@.len() == 50,
        r@[0] == 0xA1,
        r@[1] == 0x30,
        r@[2] == timer,
        r@[3] == 0x90,
        r@[4] == spec_bt_byte_right(input.buttons),
        r@[5] == spec_bt_byte_shared(input.buttons),
        r@[6] == spec_bt_byte_left(input.buttons),
        ({
            let (p0, p1, p2) = spec_pack_12bit(
                spec_axis(left_cal.0 as int),
                spec_axis(left_cal.1 as int),
            );
            r@[7] == p0 && r@[8] == p1 && r@[9] == p2
        }),
        ({
            let (p0, p1, p2) = spec_pack_12bit(
                spec_axis(right_cal.0 as int),
                spec_axis(right_cal.1 as int),
            );
            r@[10] == p0 && r@[11] == p1 && r@[12] == p2
        }),
        r@[13] == 0xB0,
        forall|i: int| 14 <= i < 50 ==> r@[i] == 0,
{
    let mut report = [0u8; 50];

    report[0] = 0xA1;
    report[1] = 0x30;
    report[2] = timer;
    report[3] = 0x90;

    report[4] = bt_byte_right(&input.buttons);
    report[5] = bt_byte_shared(&input.buttons);
    report[6] = bt_byte_left(&input.buttons);

    let lx = axis_to_u12(left_cal.0);
    let ly = axis_to_u12(left_cal.1);
    let (l0, l1, l2) = pack_12bit_triplet(lx, ly);
    report[7] = l0;
    report[8] = l1;
    report[9] = l2;

    let rx = axis_to_u12(right_cal.0);
    let ry = axis_to_u12(right_cal.1);
    let (r0, r1, r2) = pack_12bit_triplet(rx, ry);
    report[10] = r0;
    report[11] = r1;
    report[12] = r2;

    report[13] = 0xB0;

    report
}

} // verus!
