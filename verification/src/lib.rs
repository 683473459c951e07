//! Verified core of a USB-to-Bluetooth Pro Controller bridge.
//!
//! The library holds the pure logic of the bridge: wire codecs between the
//! USB HID report layout and the Bluetooth HID layout, the combo detector,
//! the subcommand protocol tables, the macro store / recorder / player, and
//! the session snapshot. All I/O (USB, L2CAP sockets, D-Bus, the web server,
//! the file system, clocks) lives outside and hands the library plain values.

pub mod buttons;
pub mod calibration;
pub mod combo;
pub mod controller;
pub mod input;
pub mod pipeline;
pub mod player;
pub mod protocol;
pub mod recorder;
pub mod session;
pub mod storage;
