//! Control logic of a networked, clock-synchronised audio receiver.
//!
//! The crate holds the decisions of the receiver as verified functions on
//! plain values:
//!
//! - `frame`: the wire format of binary audio frames;
//! - `session`: configuration, connection status and the registry of the one
//!   live session;
//! - `handshake`: the frames that open a session and its phases up to
//!   streaming;
//! - `streaming`: the dispatch of inbound messages, ticks, commands and audio
//!   frames in steady state;
//! - `playback`: the pipeline that owns one sink at a time;
//! - `software_gain`: the fixed-point gain engine with its ramp;
//! - `volume_control` and `backend`: the mirror of the logical volume on the
//!   operating system's volume, and the reading of platform outcomes;
//! - `control`: the choice between software gain and hardware mirror.
//!
//! Sockets, timers, threads, audio devices, platform volume APIs and
//! floating-point sample buffers live with the caller.

pub mod backend;
pub mod control;
pub mod frame;
pub mod handshake;
pub mod playback;
pub mod session;
pub mod software_gain;
pub mod streaming;
pub mod volume_control;
