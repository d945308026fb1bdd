//! Device Firmware Upgrade (DFU 1.1 with the DfuSe extension): the protocol
//! layer and the update sequence that erases, programs and verifies a
//! device's memory, as verified code.
//!
//! - `states`: device status and state codes and their byte encodings.
//! - `device`: DFU requests, status responses, the functional descriptor,
//!   recognising a DFU interface, and device identities.
//! - `info`: the information gathered from a device's descriptors.
//! - `text`: splitting, trimming and number reading for descriptor strings.
//! - `dfuse`: memory segment descriptors, DfuSe commands, and the erase
//!   workaround for one faulty device.
//! - `update`: the image model and the operations of each update phase.
//! - `session`: carrying those operations out, one action at a time.
//! - `checks`: checks of a firmware file against the selected device.
//!
//! The library does no I/O: USB transfers, sleeping and file access are left
//! to the caller, which performs the actions a `session::Session` or
//! `session::Update` asks for and reports back how they went.

pub mod checks;
pub mod device;
pub mod dfuse;
pub mod info;
pub mod session;
pub mod states;
pub mod text;
pub mod update;
