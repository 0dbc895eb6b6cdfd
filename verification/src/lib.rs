//! Double-buffered ("ping-pong") audio playback scheduling.
//!
//! The library is the timing and buffer-swap core of a streaming audio
//! session: a virtual clock that decides when a freshly produced sample
//! block is due to be pushed, and a buffer swapper that snapshots the
//! producer's block and plans the crossfaded handoff from the playing
//! buffer to the newly filled one. The audio output device itself is an
//! external collaborator: the session hands back a plan of scheduling
//! commands (ramp times, stop time, start offset) that the embedding
//! code executes against the device.
//!
//! Time is carried in whole microseconds of the device clock, and sample
//! values as raw 32-bit words, so that every decision the core makes is
//! over plain integers.

use vstd::prelude::*;

pub mod audio;
pub mod timing;

verus! {

/// Length of one sample block, in samples.
pub const AUDIO_BUFF_SIZE: u32 = 44100;

/// Samples per second of device time.
pub const SAMPLE_RATE: u32 = 44100;

/// Microseconds in one second; the resolution of the virtual clock.
pub const MICROS_PER_SEC: u64 = 1_000_000;

/// Half of `MICROS_PER_SEC`, the round-to-nearest offset.
pub const HALF_MICROS_PER_SEC: u64 = 500_000;

/// Duration of the crossfade between the outgoing and the incoming
/// buffer, in microseconds (5 ms).
pub const FADE_MICROS: u64 = 5_000;

/// A gain of one, expressed in millionths.
pub const UNITY_GAIN_PPM: u64 = 1_000_000;

} // verus!
