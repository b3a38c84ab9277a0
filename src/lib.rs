//! A real-time mixing and capture engine for a live-performance instrument.
//!
//! Trigger events fire shared PCM buffers into a pull-based mixer that sums
//! every sounding voice into one clamped output stream, and forwards that
//! stream to any active recording session.  A control handle talks to the
//! mixer through one-way, non-blocking channels only.
//!
//! Samples are fixed-point integers: `FULL_SCALE` stands for an amplitude
//! of 1.0, and every emitted sample lies in `[-FULL_SCALE, FULL_SCALE]`.
use vstd::prelude::*;

pub mod buffer;
pub mod channel;
pub mod voice;
pub mod mixer;
pub mod key_set;
pub mod error;
pub mod controller;
pub mod instrument;
pub mod laws;
pub mod player;
pub mod backend;
pub mod keys;
pub mod binding;

verus! {

/// The amplitude 1.0 in the fixed-point sample format.
pub const FULL_SCALE: i32 = 16777216;

/// Interleaved channel count that every buffer played by the mixer has.
pub const CHANNEL_NUM: u16 = 2;

} // verus!
