//! Choosing how to capture: the stream configuration, and which frames of
//! a faster device are kept.
use crate::orchestrator::state::TARGET_SAMPLE_RATE;
use vstd::prelude::*;

verus! {

/// A range of stream configurations that the input device supports.
#[derive(Debug, Clone, Copy, PartialEq, Eq, Structural)]
pub struct InputConfigRange {
    pub channels: u16,
    pub min_sample_rate: u32,
    pub max_sample_rate: u32,
    /// The samples are 32-bit floats.
    pub is_f32: bool,
}

impl InputConfigRange {
    /// The range delivers what the pipeline wants as it is: one channel of
    /// 32-bit floats at `TARGET_SAMPLE_RATE`.
    pub open spec fn supports_target(self) -> bool {
        &&& self.channels == 1
        &&& self.min_sample_rate <= TARGET_SAMPLE_RATE
        &&& self.max_sample_rate >= TARGET_SAMPLE_RATE
        &&& self.is_f32
    }

    /// Whether the range delivers mono floats at the target rate.
    pub fn delivers_target(&self) -> (b: bool)
        ensures
            b == self.supports_target(),
    {
        self.channels == 1 && self.min_sample_rate <= TARGET_SAMPLE_RATE && self.max_sample_rate
            >= TARGET_SAMPLE_RATE && self.is_f32
    }
}

/// The first of `configs` that delivers the target as it is, if any does.
pub fn find_target_config(configs: &Vec<InputConfigRange>) -> (found: Option<usize>)
    ensures
        match found {
            Some(i) => {
                &&& i < configs.len()
                &&& configs[i as int].supports_target()
                &&& forall|j: int| 0 <= j < i ==> !(#[trigger] configs[j]).supports_target()
            },
            None => forall|j: int| 0 <= j < configs.len() ==> !(#[trigger] configs[j]).supports_target(),
        },
{
    let mut i: usize = 0;
    while i < configs.len()
        invariant
            i <= configs.len(),
            forall|j: int| 0 <= j < i ==> !(#[trigger] configs[j]).supports_target(),
        decreases configs.len() - i,
    {
        if configs[i].delivers_target() {
            return Some(i);
        }
        i += 1;
    }
    None
}

/// How a device is captured.
#[derive(Debug, Clone, Copy, PartialEq, Eq, Structural)]
pub struct CapturePlan {
    /// The rate of the samples that reach the buffer, in hertz.
    pub sample_rate: u32,
    /// Of so many frames in a row the first is kept.
    pub downsample_factor: usize,
}

/// The plan for a device that delivers the target rate: every frame is kept.
pub open spec fn direct_plan() -> CapturePlan {
    CapturePlan { sample_rate: TARGET_SAMPLE_RATE, downsample_factor: 1 }
}

/// The plan for a device that runs at `native_rate`: frames are dropped
/// by the whole factor that brings the rate closest to the target from
/// above, and never fewer than all are kept.
pub open spec fn fallback_plan(native_rate: u32) -> CapturePlan {
    let factor = if native_rate / TARGET_SAMPLE_RATE >= 1 {
        native_rate / TARGET_SAMPLE_RATE
    } else {
        1
    };
    CapturePlan {
        sample_rate: (native_rate / factor) as u32,
        downsample_factor: factor as usize,
    }
}

/// The plan for a device that delivers the target rate.
pub fn plan_direct() -> (plan: CapturePlan)
    ensures
        plan == direct_plan(),
{
    CapturePlan { sample_rate: TARGET_SAMPLE_RATE, downsample_factor: 1 }
}

/// The plan for a device that runs at `native_rate` and offers nothing
/// closer to the target.
pub fn plan_fallback(native_rate: u32) -> (plan: CapturePlan)
    ensures
        plan == fallback_plan(native_rate),
        plan.downsample_factor >= 1,
{
    let ratio = native_rate / TARGET_SAMPLE_RATE;
    let factor: u32 = if ratio >= 1 {
        ratio
    } else {
        1
    };
    CapturePlan { sample_rate: native_rate / factor, downsample_factor: factor as usize }
}

/// A device that runs at the target rate or faster is brought to a rate
/// from the target up to just below twice the target; a slower one keeps
/// its rate.
pub proof fn fallback_rate_law(native_rate: u32)
    ensures
        native_rate >= TARGET_SAMPLE_RATE ==> TARGET_SAMPLE_RATE <= fallback_plan(
            native_rate,
        ).sample_rate < 2 * TARGET_SAMPLE_RATE,
        native_rate < TARGET_SAMPLE_RATE ==> fallback_plan(native_rate) == (CapturePlan {
            sample_rate: native_rate,
            downsample_factor: 1,
        }),
{
    if native_rate >= TARGET_SAMPLE_RATE {
        let f = native_rate / TARGET_SAMPLE_RATE;
        let r = native_rate as int;
        let fi = f as int;
        assert(fi >= 1);
        assert(fi * 16000 <= r < (fi + 1) * 16000) by (nonlinear_arith)
            requires
                fi == r / 16000,
                r >= 0,
        ;
        assert(16000 <= r / fi < 32000) by (nonlinear_arith)
            requires
                fi >= 1,
                fi * 16000 <= r < (fi + 1) * 16000,
        ;
    }
}

/// Whether the frame at position `index` of a block is kept when of
/// every `factor` frames the first is.
pub fn keeps_frame(index: usize, factor: usize) -> (kept: bool)
    requires
        factor > 0,
    ensures
        kept == (index % factor == 0),
{
    index % factor == 0
}

/// The number of frames in a block of `samples` interleaved samples of
/// `channels` channels, a last incomplete frame counted.
pub fn frame_count(samples: usize, channels: usize) -> (frames: usize)
    requires
        channels > 0,
    ensures
        frames == (samples + channels - 1) / channels as int,
{
    if samples % channels == 0 {
        proof {
            assert((samples + channels - 1) / channels as int == samples / channels) by (nonlinear_arith)
                requires
                    samples % channels == 0,
                    channels > 0,
            ;
        }
        samples / channels
    } else {
        proof {
            assert((samples + channels - 1) / channels as int == samples / channels + 1) by (nonlinear_arith)
                requires
                    samples % channels != 0,
                    channels > 0,
            ;
            assert(samples / channels < usize::MAX) by (nonlinear_arith)
                requires
                    samples % channels != 0,
                    channels > 0,
                    samples <= usize::MAX,
            ;
        }
        samples / channels + 1
    }
}

} // verus!
