//! A verified NetFlow v5 codec and sender state machine.
//!
//! The library decodes arbitrary byte buffers into typed NetFlow v5 packets
//! without ever reading out of bounds, encodes typed packets back into the
//! exact wire layout, and drives a resilient UDP delivery loop as a verified
//! state machine. Network and timing side effects stay outside the library;
//! callers hand in plain values and get plain values back.

pub mod decode;
pub mod encode;
pub mod laws;
pub mod packet;
pub mod sender;
pub mod text;
pub mod time;
pub mod wire;
