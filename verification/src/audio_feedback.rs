//! The short cues that mark the start and the end of a recording.
use vstd::prelude::*;

verus! {

/// Which cue to play.
#[derive(Debug, Clone, Copy, PartialEq, Eq, Structural)]
pub enum BeepType {
    /// A recording starts: a tone that rises from 600 Hz to 900 Hz.
    Start,
    /// A recording stops: a tone that falls from 900 Hz to 600 Hz.
    Stop,
}

/// How long a cue sounds, in milliseconds.
pub const BEEP_MILLIS: u64 = 150;

/// How long the player waits for a cue to end, in milliseconds.
pub const BEEP_WAIT_MILLIS: u64 = 200;

impl BeepType {
    /// The frequencies at which the cue starts and ends, in hertz.
    pub open spec fn sweep(self) -> (u32, u32) {
        match self {
            BeepType::Start => (600u32, 900u32),
            BeepType::Stop => (900u32, 600u32),
        }
    }

    /// The frequencies at which the cue starts and ends, in hertz.
    pub fn sweep_hz(self) -> (ends: (u32, u32))
        ensures
            ends == self.sweep(),
    {
        match self {
            BeepType::Start => (600, 900),
            BeepType::Stop => (900, 600),
        }
    }
}

/// The number of samples of a cue at `sample_rate`: 150 ms of sound,
/// rounded down.
pub open spec fn cue_samples(sample_rate: u32) -> nat {
    (sample_rate as nat * BEEP_MILLIS as nat) / 1000
}

/// The number of samples of a cue at `sample_rate`.
pub fn beep_sample_count(sample_rate: u32) -> (n: u64)
    ensures
        n == cue_samples(sample_rate),
{
    let total: u64 = sample_rate as u64 * BEEP_MILLIS;
    total / 1000
}

} // verus!
