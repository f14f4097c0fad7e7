//! Core logic for a ring of "elder" stations: an Art-Net (DMX over UDP)
//! receiver node that demultiplexes pixel data into per-strip frame buffers,
//! answers discovery polls, and the effect-server side that encodes outgoing
//! frames and relay-bus commands for the poofer solenoids.
//!
//! All byte-level protocol work, addressing, and buffer mutation is verified;
//! sockets, serial ports, and LED hardware live outside this crate.

pub mod effects;
pub mod frame;
pub mod mapping;
pub mod model;
pub mod node;
pub mod output;
pub mod poofer_bus;
pub mod protocol;
pub mod router;
