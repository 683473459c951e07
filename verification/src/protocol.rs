//! Pro Controller Bluetooth protocol: canned SPI flash read responses,
//! subcommand handling, and the framing of subcommand replies and empty
//! input reports on the interrupt channel.

use vstd::prelude::*;

verus! {

/// A sequence of `n` copies of one byte.
pub open spec fn spec_filled(b: u8, n: nat) -> Seq<u8> {
    Seq::new(n, |i: int| b)
}

/// A vector of `n` copies of one byte.
pub fn filled_vec(b: u8, n: usize) -> (r: Vec<u8>)
    ensures
        r@ == spec_filled(b, n as nat),
{
    let mut v: Vec<u8> = Vec::new();
    let mut i: usize = 0;
    while i < n
        invariant
            i <= n,
            v@ == spec_filled(b, i as nat),
        decreases n - i,
    {
        v.push(b);
        proof {
            assert(v@ =~= spec_filled(b, (i + 1) as nat));
        }
        i = i + 1;
    }
    v
}

/// The canned response to an SPI flash read, selected by (address, length).
/// Reads with no canned data return zeros.
pub open spec fn spec_spi_response(addr: u32, len: u8) -> Seq<u8> {
    if addr == 0x6050 && len == 0x0D {
        // Controller colours: body, buttons, left grip, right grip, trailer
        seq![
            0x32u8,
            0x32,
            0x32,
            0xFF,
            0xFF,
            0xFF,
            0x32,
            0x32,
            0x32,
            0xFF,
            0xFF,
            0xFF,
            0xFF,
        ]
    } else if addr == 0x603D && len == 0x12 {
        // Factory stick calibration: left then right, 9 bytes each
        seq![
            0x00u8,
            0x07,
            0x70,
            0x00,
            0x08,
            0x80,
            0x00,
            0x07,
            0x70,
            0x00,
            0x07,
            0x70,
            0x00,
            0x08,
            0x80,
            0x00,
            0x07,
            0x70,
        ]
    } else if addr == 0x8010 && len == 0x16 {
        // No user stick calibration
        spec_filled(0xFF, 0x16)
    } else if addr == 0x6086 && len == 0x12 {
        // Stick deadzone and range parameters
        seq![
            0x0Fu8,
            0x30,
            0x61,
            0x96,
            0x30,
            0xF3,
            0xD4,
            0x14,
            0x54,
            0x41,
            0x15,
            0x54,
            0xC7,
            0x79,
            0x9C,
            0x33,
            0x36,
            0x63,
        ]
    } else if addr == 0x6020 && len == 0x18 {
        // IMU factory calibration
        seq![
            0xBEu8,
            0xFF,
            0x3E,
            0x00,
            0xF0,
            0x01,
            0x00,
            0x40,
            0x00,
            0x40,
            0x00,
            0x40,
            0xFE,
            0xFF,
            0xFE,
            0xFF,
            0x08,
            0x00,
            0xE7,
            0x3B,
            0xE7,
            0x3B,
            0xE7,
            0x3B,
        ]
    } else if addr == 0x8026 && len == 0x1A {
        // No user IMU calibration
        spec_filled(0xFF, 0x1A)
    } else if addr == 0x6080 && len == 0x06 {
        // Sensor device parameters
        seq![0x50u8, 0xFD, 0x00, 0x00, 0xC6, 0x0F]
    } else {
        // Serial number, remaining device parameters, and every other read:
        // zeros
        spec_filled(0x00, len as nat)
    }
}

/// SPI flash read response data, keyed on (address, length).
pub fn spi_read_response(addr: u32, len: u8) -> (r: Vec<u8>)
    ensures
        r@ == spec_spi_response(addr, len),
{
    if addr == 0x6050 && len == 0x0D {
        let a: [u8; 13] = [
            0x32,
            0x32,
            0x32,
            0xFF,
            0xFF,
            0xFF,
            0x32,
            0x32,
            0x32,
            0xFF,
            0xFF,
            0xFF,
            0xFF,
        ];
        let v = vstd::slice::slice_to_vec(a.as_slice());
        proof {
            assert(v@ =~= spec_spi_response(addr, len));
        }
        v
    } else if addr == 0x603D && len == 0x12 {
        let a: [u8; 18] = [
            0x00,
            0x07,
            0x70,
            0x00,
            0x08,
            0x80,
            0x00,
            0x07,
            0x70,
            0x00,
            0x07,
            0x70,
            0x00,
            0x08,
            0x80,
            0x00,
            0x07,
            0x70,
        ];
        let v = vstd::slice::slice_to_vec(a.as_slice());
        proof {
            assert(v@ =~= spec_spi_response(addr, len));
        }
        v
    } else if addr == 0x8010 && len == 0x16 {
        filled_vec(0xFF, 0x16)
    } else if addr == 0x6086 && len == 0x12 {
        let a: [u8; 18] = [
            0x0F,
            0x30,
            0x61,
            0x96,
            0x30,
            0xF3,
            0xD4,
            0x14,
            0x54,
            0x41,
            0x15,
            0x54,
            0xC7,
            0x79,
            0x9C,
            0x33,
            0x36,
            0x63,
        ];
        let v = vstd::slice::slice_to_vec(a.as_slice());
        proof {
            assert(v@ =~= spec_spi_response(addr, len));
        }
        v
    } else if addr == 0x6020 && len == 0x18 {
        let a: [u8; 24] = [
            0xBE,
            0xFF,
            0x3E,
            0x00,
            0xF0,
            0x01,
            0x00,
            0x40,
            0x00,
            0x40,
            0x00,
            0x40,
            0xFE,
            0xFF,
            0xFE,
            0xFF,
            0x08,
            0x00,
            0xE7,
            0x3B,
            0xE7,
            0x3B,
            0xE7,
            0x3B,
        ];
        let v = vstd::slice::slice_to_vec(a.as_slice());
        proof {
            assert(v@ =~= spec_spi_response(addr, len));
        }
        v
    } else if addr == 0x8026 && len == 0x1A {
        filled_vec(0xFF, 0x1A)
    } else if addr == 0x6080 && len == 0x06 {
        let a: [u8; 6] = [0x50, 0xFD, 0x00, 0x00, 0xC6, 0x0F];
        let v = vstd::slice::slice_to_vec(a.as_slice());
        proof {
            assert(v@ =~= spec_spi_response(addr, len));
        }
        v
    } else {
        filled_vec(0x00, len as usize)
    }
}

/// The device-info reply payload: firmware version, controller type (Pro
/// Controller), a fixed MAC address, and the colours-in-SPI flag.
pub open spec fn spec_device_info() -> Seq<u8> {
    seq![0x03u8, 0x48, 0x03, 0x02, 0x98, 0xB6, 0xE9, 0x46, 0x50, 0x6A, 0x01, 0x01]
}

/// The NFC/IR MCU configuration reply payload.
pub open spec fn spec_mcu_config() -> Seq<u8> {
    seq![0x01u8, 0x00, 0xFF, 0x00, 0x03, 0x00, 0x05, 0x01]
}

/// The acknowledge byte of a subcommand reply. A malformed SPI read (fewer
/// than five payload bytes) is acknowledged like an unknown subcommand.
pub open spec fn spec_subcommand_ack(subcmd_id: u8, data_len: nat) -> u8 {
    if subcmd_id == 0x02 {
        0x82u8
    } else if subcmd_id == 0x04 {
        0x83u8
    } else if subcmd_id == 0x10 {
        if data_len >= 5 {
            0x90u8
        } else {
            0x80u8
        }
    } else if subcmd_id == 0x21 {
        0xA0u8
    } else if subcmd_id == 0x48 {
        0x82u8
    } else {
        0x80u8
    }
}

/// The reply payload of a subcommand: device info for 0x02, the echoed
/// request header plus the canned data for an SPI read, the MCU blob for
/// 0x21, and empty for everything else.
pub open spec fn spec_subcommand_reply_data(subcmd_id: u8, data: Seq<u8>) -> Seq<u8> {
    if subcmd_id == 0x02 {
        spec_device_info()
    } else if subcmd_id == 0x10 && data.len() >= 5 {
        data.subrange(0, 5) + spec_spi_response(
            vstd::bytes::spec_u32_from_le_bytes(data.subrange(0, 4)),
            data[4],
        )
    } else if subcmd_id == 0x21 {
        spec_mcu_config()
    } else {
        Seq::empty()
    }
}

/// Handle a subcommand from the console and return (acknowledge byte, reply
/// payload). Handling is total: every id yields a reply, unknown ids get a
/// plain acknowledge with an empty payload.
pub fn handle_subcommand(subcmd_id: u8, subcmd_data: &[u8]) -> (r: (u8, Vec<u8>))
    ensures
        r.0 == spec_subcommand_ack(subcmd_id, subcmd_data@.len()),
        r.1@ == spec_subcommand_reply_data(subcmd_id, subcmd_data@),
{
    if subcmd_id == 0x02 {
        // Request device info
        let a: [u8; 12] = [0x03, 0x48, 0x03, 0x02, 0x98, 0xB6, 0xE9, 0x46, 0x50, 0x6A, 0x01, 0x01];
        let v = vstd::slice::slice_to_vec(a.as_slice());
        proof {
            assert(v@ =~= spec_device_info());
        }
        (0x82, v)
    } else if subcmd_id == 0x04 {
        // Trigger-button elapsed time
        (0x83, Vec::new())
    } else if subcmd_id == 0x10 {
        // SPI flash read
        if subcmd_data.len() >= 5 {
            let addr_bytes = vstd::slice::slice_subrange(subcmd_data, 0, 4);
            let addr = vstd::bytes::u32_from_le_bytes(addr_bytes);
            let length = *vstd::slice::slice_index_get(subcmd_data, 4);

            let mut reply = vstd::slice::slice_to_vec(
                vstd::slice::slice_subrange(subcmd_data, 0, 5),
            );
            let mut spi = spi_read_response(addr, length);
            reply.append(&mut spi);
            proof {
                assert(reply@ =~= spec_subcommand_reply_data(subcmd_id, subcmd_data@));
            }
            (0x90, reply)
        } else {
            (0x80, Vec::new())
        }
    } else if subcmd_id == 0x21 {
        // NFC/IR MCU configuration
        let a: [u8; 8] = [0x01, 0x00, 0xFF, 0x00, 0x03, 0x00, 0x05, 0x01];
        let v = vstd::slice::slice_to_vec(a.as_slice());
        proof {
            assert(v@ =~= spec_mcu_config());
        }
        (0xA0, v)
    } else if subcmd_id == 0x48 {
        // Enable vibration
        (0x82, Vec::new())
    } else {
        // Input mode, shipment state, NFC/IR state, player lights, home
        // light, IMU enable and sensitivity, and every unknown id
        (0x80, Vec::new())
    }
}

/// The 50-byte subcommand reply frame: transaction header, report id 0x21,
/// timer, battery, neutral buttons, both sticks at centre, vibrator, the
/// acknowledge byte, the subcommand id replied to, and the reply payload
/// (truncated to the 34 bytes that fit).
pub open spec fn spec_subcommand_reply(timer: u8, subcmd: u8, ack: u8, data: Seq<u8>) -> Seq<u8> {
    Seq::new(
        50,
        |i: int|
            if i == 0 {
                0xA1u8
            } else if i == 1 {
                0x21u8
            } else if i == 2 {
                timer
            } else if i == 3 {
                0x90u8
            } else if i == 7 || i == 10 {
                0x00u8
            } else if i == 8 || i == 11 {
                0x08u8
            } else if i == 9 || i == 12 {
                0x80u8
            } else if i == 13 {
                0xB0u8
            } else if i == 14 {
                ack
            } else if i == 15 {
                subcmd
            } else if 16 <= i < 16 + data.len() && i < 50 {
                data[i - 16]
            } else {
                0x00u8
            },
    )
}

/// Build a subcommand reply frame.
pub fn build_subcommand_reply(timer: u8, subcmd: u8, ack: u8, data: &[u8]) -> (r: Vec<u8>)
    ensures
        r@ == spec_subcommand_reply(timer, subcmd, ack, data@),
{
    let mut reply: [u8; 50] = [0; 50];
    reply[0] = 0xA1;
    reply[1] = 0x21;
    reply[2] = timer;
    reply[3] = 0x90;
    // Left stick at centre
    reply[7] = 0x00;
    reply[8] = 0x08;
    reply[9] = 0x80;
    // Right stick at centre
    reply[10] = 0x00;
    reply[11] = 0x08;
    reply[12] = 0x80;
    reply[13] = 0xB0;
    reply[14] = ack;
    reply[15] = subcmd;

    let copy_len: usize = if data.len() < 34 {
        data.len()
    } else {
        34
    };
    let mut i: usize = 0;
    while i < copy_len
        invariant
            copy_len <= 34,
            copy_len <= data.len(),
            i <= copy_len,
            reply@.len() == 50,
            forall|j: int| 0 <= j < 16 ==> reply@[j] == spec_subcommand_reply(timer, subcmd, ack, data@)[j],
            forall|j: int| 16 <= j < 16 + i ==> reply@[j] == data@[j - 16],
            forall|j: int| 16 + i <= j < 50 ==> reply@[j] == 0,
        decreases copy_len - i,
    {
        reply[16 + i] = *vstd::slice::slice_index_get(data, i);
        i = i + 1;
    }
    let v = vstd::slice::slice_to_vec(reply.as_slice());
    proof {
        assert(v@ =~= spec_subcommand_reply(timer, subcmd, ack, data@));
    }
    v
}

/// The 50-byte empty 0x30 input report used while pairing. Until the
/// console has asked for device info the report carries only the header and
/// the timer; afterwards it carries battery state, centred sticks and the
/// vibrator byte.
pub open spec fn spec_empty_input_report(timer: u8, include_state: bool) -> Seq<u8> {
    Seq::new(
        50,
        |i: int|
            if i == 0 {
                0xA1u8
            } else if i == 1 {
                0x30u8
            } else if i == 2 {
                timer
            } else if !include_state {
                0x00u8
            } else if i == 3 {
                0x90u8
            } else if i == 7 {
                0x6Fu8
            } else if i == 8 {
                0xC8u8
            } else if i == 9 {
                0x77u8
            } else if i == 10 {
                0x16u8
            } else if i == 11 {
                0xD8u8
            } else if i == 12 {
                0x7Du8
            } else if i == 13 {
                0xB0u8
            } else {
                0x00u8
            },
    )
}

/// Build an empty 0x30 input report for the pairing loop.
pub fn build_empty_input_report(timer: u8, include_state: bool) -> (r: [u8; 50])
    ensures
        r@ == spec_empty_input_report(timer, include_state),
{
    let mut report: [u8; 50] = [0; 50];
    report[0] = 0xA1;
    report[1] = 0x30;
    report[2] = timer;

    if include_state {
        report[3] = 0x90;
        // Left stick at rest, as the controller reports it
        report[7] = 0x6F;
        report[8] = 0xC8;
        report[9] = 0x77;
        // Right stick at rest
        report[10] = 0x16;
        report[11] = 0xD8;
        report[12] = 0x7D;
        // Vibrator byte
        report[13] = 0xB0;
    }
    proof {
        assert(report@ =~= spec_empty_input_report(timer, include_state));
    }
    report
}

/// Where the subcommand id sits in an incoming interrupt-channel buffer:
/// buffers may carry a 0xA2 transaction prefix before the report type, and
/// report types 0x01 and 0x11 hold a subcommand id after the rumble block.
pub open spec fn spec_incoming_subcommand(data: Seq<u8>) -> Option<(u8, int)> {
    if data.len() == 0 {
        None
    } else {
        let prefixed = data[0] == 0xA2 && data.len() >= 2;
        let report_type = if prefixed {
            data[1]
        } else {
            data[0]
        };
        let offset: int = if prefixed {
            11
        } else {
            10
        };
        if (report_type == 0x01 || report_type == 0x11) && data.len() > offset {
            Some((data[offset], offset + 1))
        } else {
            None
        }
    }
}

/// Parse an incoming interrupt-channel buffer and, when it carries a
/// subcommand, build the 50-byte reply frame. Returns the subcommand id and
/// the frame; buffers that carry no subcommand get no reply.
pub fn subcommand_reply_for(data: &[u8], timer: u8) -> (r: Option<(u8, Vec<u8>)>)
    ensures
        r is Some <==> spec_incoming_subcommand(data@) is Some,
        r matches Some((id, reply)) ==> ({
            let (spec_id, payload_start) = spec_incoming_subcommand(data@).unwrap();
            let payload = data@.subrange(payload_start, data@.len() as int);
            id == spec_id && reply@ == spec_subcommand_reply(
                timer,
                spec_id,
                spec_subcommand_ack(spec_id, payload.len()),
                spec_subcommand_reply_data(spec_id, payload),
            )
        }),
{
    let n = data.len();
    if n == 0 {
        return None;
    }
    let first = *vstd::slice::slice_index_get(data, 0);
    let prefixed = first == 0xA2 && n >= 2;
    let report_type = if prefixed {
        *vstd::slice::slice_index_get(data, 1)
    } else {
        first
    };
    let offset: usize = if prefixed {
        11
    } else {
        10
    };
    if (report_type == 0x01 || report_type == 0x11) && n > offset {
        let subcmd_id = *vstd::slice::slice_index_get(data, offset);
        let payload = vstd::slice::slice_subrange(data, offset + 1, n);
        let (ack, reply_data) = handle_subcommand(subcmd_id, payload);
        let reply = build_subcommand_reply(timer, subcmd_id, ack, reply_data.as_slice());
        Some((subcmd_id, reply))
    } else {
        None
    }
}

/// Progress of the pairing handshake: pairing is complete the first time
/// both vibration has been enabled and the player lights have been set.
pub struct PairingTracker {
    pub vibration_enabled: bool,
    pub player_set: bool,
    pub device_info_queried: bool,
    pub received_first_message: bool,
}

impl PairingTracker {
    pub fn new() -> (r: Self)
        ensures
            !r.vibration_enabled,
            !r.player_set,
            !r.device_info_queried,
            !r.received_first_message,
    {
        PairingTracker {
            vibration_enabled: false,
            player_set: false,
            device_info_queried: false,
            received_first_message: false,
        }
    }

    /// Record that a subcommand was answered: 0x02 marks device info as
    /// queried, 0x48 marks vibration enabled, 0x30 marks player lights set.
    pub fn note_subcommand(&mut self, subcmd_id: u8)
        ensures
            final(self).device_info_queried == (old(self).device_info_queried || subcmd_id
                == 0x02),
            final(self).vibration_enabled == (old(self).vibration_enabled || subcmd_id == 0x48),
            final(self).player_set == (old(self).player_set || subcmd_id == 0x30),
            final(self).received_first_message == old(self).received_first_message,
    {
        let updated = PairingTracker {
            device_info_queried: self.device_info_queried || subcmd_id == 0x02,
            vibration_enabled: self.vibration_enabled || subcmd_id == 0x48,
            player_set: self.player_set || subcmd_id == 0x30,
            received_first_message: self.received_first_message,
        };
        *self = updated;
    }

    /// Record that some message arrived on the interrupt channel.
    pub fn note_message(&mut self)
        ensures
            final(self).received_first_message,
            final(self).vibration_enabled == old(self).vibration_enabled,
            final(self).player_set == old(self).player_set,
            final(self).device_info_queried == old(self).device_info_queried,
    {
        let updated = PairingTracker { received_first_message: true, ..*self };
        *self = updated;
    }

    /// Whether the handshake is complete.
    pub fn is_complete(&self) -> (r: bool)
        ensures
            r == (self.vibration_enabled && self.player_set),
    {
        self.vibration_enabled && self.player_set
    }
}

} // verus!
