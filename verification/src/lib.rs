//! A streaming MP4 encoder core: a verified model of a session that pipes
//! raw RGBA frames into an external `ffmpeg` process.
//!
//! The library holds the decision logic: lazy spawn on the first frame,
//! construction of the encoder invocation, codec selection with hardware
//! probing priority, and the graceful/forced shutdown protocol. An
//! unverified driver performs the actual process I/O by executing the
//! action plans this library returns.

pub mod codec;
pub mod frame;
pub mod invocation;
pub mod numfmt;
pub mod session;

use vstd::prelude::*;

verus! {

/// The external encoder executable could not be launched.
#[derive(Debug, Clone)]
pub struct SpawnError {
    /// Description of the launch failure, as reported by the system.
    pub detail: String,
}

/// A write to the encoder's input channel failed, typically because the
/// process exited early.
#[derive(Debug, Clone)]
pub struct IoError {
    /// Description of the write failure, as reported by the system.
    pub detail: String,
}

/// The caller-facing error for a single `encode` call.
#[derive(Debug, Clone)]
pub enum EncodeError {
    /// The frame carried no pixel data.
    NoPixelData,
    /// Spawning the external process failed.
    Spawn(SpawnError),
    /// Writing the frame to the process failed.
    Io(IoError),
}

} // verus!
