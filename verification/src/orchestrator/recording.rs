//! Starting and stopping a recording, and what the periodic tick samples.
use crate::audio_feedback::BeepType;
use crate::orchestrator::pipeline::dispatch_transcription;
use crate::orchestrator::state::{command_views, concat_text, no_commands, outcome_view, push_command, update_status, AppState, AppStatus, BackendEvent, Command, OverlayPhase};
use vstd::prelude::*;
use vstd::string::*;

verus! {

/// The period of the tick that samples the level, in milliseconds.
pub const TICK_MILLIS: u64 = 80;

/// Every so many ticks the clock is refreshed too.
pub const TICKS_PER_CLOCK: usize = 12;

/// The number of most recent samples whose energy gives the level.
pub const RMS_WINDOW: usize = 1280;

/// Begins a recording: cancels a pending dismiss, has the sample buffer
/// emptied and the start cue played, and asks for the input device. The
/// answer goes to [`capture_started`].
pub fn start_recording(state: &mut AppState) -> (commands: Vec<Command>)
    requires
        old(state)@.wf(),
        old(state)@.status is Idle,
    ensures
        final(state)@ == old(state)@.start_recording().state,
        command_views(commands@) == old(state)@.start_recording().commands,
        final(state)@.wf(),
{
    let mut commands = no_commands();
    if state.dismiss_armed {
        state.dismiss_armed = false;
        push_command(&mut commands, Command::CancelDismissTimer);
    }
    push_command(&mut commands, Command::ClearAudioBuffer);
    push_command(&mut commands, Command::PlayCue(BeepType::Start));
    push_command(&mut commands, Command::OpenCapture);
    commands
}

/// The input device answered at `now_ms`. `Ok` with the effective sample
/// rate: the session records. `Err` with a message: the session stays idle
/// and shows it.
pub fn capture_started(state: &mut AppState, outcome: Result<u32, String>, now_ms: u64) -> (commands:
    Vec<Command>)
    requires
        old(state)@.wf(),
        old(state)@.status is Idle,
    ensures
        final(state)@ == old(state)@.capture_started(outcome_view(outcome), now_ms).state,
        command_views(commands@) == old(state)@.capture_started(
            outcome_view(outcome),
            now_ms,
        ).commands,
        final(state)@.wf(),
{
    let mut commands = no_commands();
    match outcome {
        Ok(sample_rate) => {
            state.capture_active = true;
            state.sample_rate = sample_rate;
            state.recording_start = Some(now_ms);
            state.status = AppStatus::Recording;
            state.overlay_phase = Some(OverlayPhase::Recording);
            push_command(&mut commands, Command::SetTimerText(String::from_str("00:00")));
            push_command(&mut commands, Command::ShowPhase(OverlayPhase::Recording));
            push_command(&mut commands, Command::ShowOverlay);
            push_command(&mut commands, Command::SetStatusText(String::from_str("Recording...")));
            state.tick_active = true;
            push_command(&mut commands, Command::StartTicker);
        },
        Err(e) => {
            let message = concat_text("Mic error: ", e.as_str());
            let label = update_status(state, AppStatus::Idle, message.as_str());
            push_command(&mut commands, label);
        },
    }
    commands
}

/// Ends a recording: stops the tick, releases the input device, has the
/// stop cue played, goes on to transcribing and asks for a copy of the
/// samples. The answer goes to [`audio_captured`].
pub fn stop_recording(state: &mut AppState) -> (commands: Vec<Command>)
    requires
        old(state)@.wf(),
        old(state)@.status is Recording,
    ensures
        final(state)@ == old(state)@.stop_recording().state,
        command_views(commands@) == old(state)@.stop_recording().commands,
        final(state)@.wf(),
{
    let mut commands = no_commands();
    let label = update_status(state, AppStatus::Processing, "Transcribing...");
    if state.tick_active {
        state.tick_active = false;
        push_command(&mut commands, Command::StopTicker);
    }
    if state.capture_active {
        state.capture_active = false;
        push_command(&mut commands, Command::CloseCapture);
    }
    state.recording_start = None;
    push_command(&mut commands, Command::PlayCue(BeepType::Stop));
    state.overlay_phase = Some(OverlayPhase::Transcribing);
    push_command(&mut commands, Command::ShowPhase(OverlayPhase::Transcribing));
    push_command(&mut commands, label);
    push_command(&mut commands, Command::SnapshotAudio);
    commands
}

/// The copy of the sample buffer holds `samples` samples. With none the
/// session returns to idle at once and says so; nothing is dispatched. With
/// some they go to transcription, or, without a model, the overlay is
/// dismissed and the session idle again.
pub fn audio_captured(state: &mut AppState, samples: usize) -> (commands: Vec<Command>)
    requires
        old(state)@.wf(),
    ensures
        final(state)@ == old(state)@.audio_captured(samples as nat).state,
        command_views(commands@) == old(state)@.audio_captured(samples as nat).commands,
        final(state)@.wf(),
{
    if samples == 0 {
        let mut commands = no_commands();
        state.overlay_phase = None;
        push_command(&mut commands, Command::HideOverlay);
        let label = update_status(state, AppStatus::Idle, "No audio captured");
        push_command(&mut commands, label);
        commands
    } else {
        dispatch_transcription(state)
    }
}

/// The first of the samples that give the level of a buffer of `len`
/// samples: the level is taken over the last `RMS_WINDOW`, or over all
/// where there are fewer.
pub open spec fn window_start(len: nat) -> nat {
    if len > RMS_WINDOW {
        (len - RMS_WINDOW) as nat
    } else {
        0
    }
}

/// Where the samples that give the level start in a buffer of `len`
/// samples, and how many they are. No samples: the level is zero.
pub fn rms_window(len: usize) -> (window: (usize, usize))
    ensures
        window.0 == window_start(len as nat),
        window.0 + window.1 == len,
        window.1 <= RMS_WINDOW,
{
    if len > RMS_WINDOW {
        (len - RMS_WINDOW, RMS_WINDOW)
    } else {
        (0, len)
    }
}

/// Counts the ticks of a recording.
#[derive(Debug)]
pub struct TickCounter {
    count: usize,
}

impl View for TickCounter {
    type V = usize;

    closed spec fn view(&self) -> usize {
        self.count
    }
}

/// The count after one more tick; it starts over after the largest count.
pub open spec fn next_count(count: usize) -> usize {
    if count == usize::MAX {
        0
    } else {
        (count + 1) as usize
    }
}

/// Whether the tick that follows `count` earlier ticks refreshes the clock
/// too: the twelfth tick does, and every twelfth after it.
pub open spec fn refreshes_clock(count: usize) -> bool {
    count % TICKS_PER_CLOCK == TICKS_PER_CLOCK - 1
}

impl TickCounter {
    /// A counter before the first tick.
    pub fn new() -> (counter: Self)
        ensures
            counter@ == 0,
    {
        TickCounter { count: 0 }
    }

    /// Counts one tick, whose level is `level`. Returns the events of the
    /// tick: the level always, and the clock on every twelfth tick.
    pub fn tick(&mut self, level: u32) -> (events: Vec<BackendEvent>)
        ensures
            final(self)@ == next_count(old(self)@),
            events@.len() == (if refreshes_clock(old(self)@) {
                2nat
            } else {
                1nat
            }),
            events@[0] == BackendEvent::AudioLevel(level),
            refreshes_clock(old(self)@) ==> events@[1] == BackendEvent::TimerTick,
    {
        let count = self.count;
        self.count = if count == usize::MAX {
            0
        } else {
            count + 1
        };
        let mut events: Vec<BackendEvent> = Vec::new();
        events.push(BackendEvent::AudioLevel(level));
        if count % TICKS_PER_CLOCK == TICKS_PER_CLOCK - 1 {
            events.push(BackendEvent::TimerTick);
        }
        events
    }
}

} // verus!
