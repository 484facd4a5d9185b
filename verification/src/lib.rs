//! Shares a keyboard and mouse with a second machine through a USB gadget:
//! key tracking, the wire protocol between client and server, and the HID
//! reports that the server writes.

pub mod virtual_key;
pub mod events;
pub mod keyset;
pub mod common;
pub mod hid;
pub mod wire;
pub mod protocol;
pub mod receiver;
pub mod sender;
pub mod exchange;
pub mod reports;
pub mod hook;
pub mod tcp_client;
pub mod misc;
pub mod winput;
pub mod send;
pub mod gui_client;
pub mod framing;
pub mod key_names;
