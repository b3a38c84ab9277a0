//! The ways an instrument operation can fail.
use vstd::prelude::*;

verus! {

/// The render side is gone: a command could not be delivered.
#[derive(Clone, Copy, Debug, PartialEq, Eq, Structural)]
pub struct ChannelClosed;

/// A buffer whose format disagrees with what the mixer plays.
#[derive(Clone, Copy, Debug, PartialEq, Eq, Structural)]
pub enum FormatMismatch {
    Channels { expected: u16, actual: u16 },
    SampleRate { expected_rate: u32, actual_rate: u32 },
}

/// Failure of an instrument operation.
#[derive(Clone, Copy, Debug, PartialEq, Eq, Structural)]
pub enum InstrumentError {
    /// The render side has terminated; the audio pipeline must be rebuilt.
    ChannelClosed,
    /// No buffer is bound to the trigger.
    UnknownTrigger(char),
    /// The trigger's buffer has the wrong channel count or sample rate.
    FormatMismatch(FormatMismatch),
}

} // verus!
