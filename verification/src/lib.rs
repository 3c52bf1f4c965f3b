//! A transparent relay core for a length-prefixed binary frame protocol.
//!
//! The wire format is a 4-byte little-endian `length` field, a 1-byte frame
//! `id`, and `length - 1` bytes of payload. The library provides the frame
//! codec, the directional pipe logic that moves frames from one byte stream
//! to another while observing each frame, and the session state machine that
//! governs a client/upstream connection pair.

pub mod codec;
pub mod pipe;
pub mod session;
