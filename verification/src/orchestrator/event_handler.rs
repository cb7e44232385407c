//! The reaction to each event, and to the answers of the clipboard and of
//! the dismiss timer.
use crate::config::HotkeyConfig;
use crate::orchestrator::model::begin_model_load;
use crate::orchestrator::pipeline::dispatch_refinement;
use crate::orchestrator::recording::{start_recording, stop_recording};
use crate::orchestrator::state::{command_views, concat_text, extend_commands, no_commands, outcome_view, push_command, update_status, AppState, AppStatus, BackendEvent, Command, ModelStage, OverlayPhase, LEVEL_SLOTS};
use crate::orchestrator::transitions::{clock_text, elapsed_secs};
use crate::stats::local_timestamp;
use crate::text::push_two_digits;
use vstd::prelude::*;
use vstd::string::*;

verus! {

/// How long a finished prompt stays on the overlay, in seconds.
pub const DISMISS_SECS: u64 = 3;

/// Seconds as minutes and seconds, two digits each at least.
pub fn format_elapsed(secs: u64) -> (text: String)
    ensures
        text@ == clock_text(secs as nat),
{
    let mut text = String::new();
    push_two_digits(&mut text, secs / 60);
    text.push(':');
    push_two_digits(&mut text, secs % 60);
    text
}

/// Hides the overlay, clears the phase and cancels the dismiss timer where
/// it is armed.
pub fn dismiss_overlay(state: &mut AppState) -> (commands: Vec<Command>)
    requires
        old(state)@.wf(),
    ensures
        final(state)@ == old(state)@.dismissed().state,
        command_views(commands@) == old(state)@.dismissed().commands,
        final(state)@.wf(),
{
    let mut commands = no_commands();
    state.overlay_phase = None;
    if state.dismiss_armed {
        state.dismiss_armed = false;
        push_command(&mut commands, Command::CancelDismissTimer);
    }
    push_command(&mut commands, Command::HideOverlay);
    commands
}

/// The clipboard answered for the prompt `text`, at the moment that
/// `timestamp` names. Copied: the prompt is counted and shown as done, the
/// session is idle, the dismiss timer armed. Failed: the overlay is
/// dismissed and the error shown.
pub fn on_prompt_ready_at(
    state: &mut AppState,
    text: String,
    copied: Result<(), String>,
    timestamp: String,
) -> (commands: Vec<Command>)
    requires
        old(state)@.wf(),
        copied is Ok ==> old(state)@.stats.can_record(text@),
    ensures
        final(state)@ == old(state)@.prompt_ready(text@, outcome_view(copied), timestamp@).state,
        command_views(commands@) == old(state)@.prompt_ready(
            text@,
            outcome_view(copied),
            timestamp@,
        ).commands,
        final(state)@.wf(),
{
    match copied {
        Ok(_) => {
            let mut commands = no_commands();
            state.stats.record_prompt_at(text.as_str(), timestamp);
            push_command(&mut commands, Command::SaveStats);
            push_command(
                &mut commands,
                Command::SetCounters {
                    words: state.stats.total_words,
                    prompts: state.stats.total_prompts,
                },
            );
            push_command(&mut commands, Command::ShowPhase(OverlayPhase::Done(text.clone())));
            state.overlay_phase = Some(OverlayPhase::Done(text));
            let label = update_status(state, AppStatus::Idle, "Idle \u{2014} Prompt copied!");
            push_command(&mut commands, label);
            state.dismiss_armed = true;
            push_command(&mut commands, Command::ArmDismissTimer);
            commands
        },
        Err(e) => {
            let mut commands = dismiss_overlay(state);
            let message = concat_text("Clipboard error: ", e.as_str());
            let label = update_status(state, AppStatus::Idle, message.as_str());
            push_command(&mut commands, label);
            commands
        },
    }
}

/// The moment that a delivery is filed under: the time stamp of the last
/// entry of the history.
pub open spec fn last_timestamp(state: crate::orchestrator::state::StateView) -> Seq<char> {
    if state.stats.history.len() > 0 {
        state.stats.history.last().timestamp
    } else {
        Seq::empty()
    }
}

/// The clipboard answered for the prompt `text`, now. As
/// [`on_prompt_ready_at`], with the local date and time of the call as the
/// time stamp of the new entry of the history.
pub fn on_prompt_ready(state: &mut AppState, text: String, copied: Result<(), String>) -> (commands:
    Vec<Command>)
    requires
        old(state)@.wf(),
        copied is Ok ==> old(state)@.stats.can_record(text@),
    ensures
        final(state)@ == old(state)@.prompt_ready(
            text@,
            outcome_view(copied),
            last_timestamp(final(state)@),
        ).state,
        command_views(commands@) == old(state)@.prompt_ready(
            text@,
            outcome_view(copied),
            last_timestamp(final(state)@),
        ).commands,
        final(state)@.wf(),
{
    let stamp = if copied.is_ok() {
        local_timestamp()
    } else {
        String::new()
    };
    on_prompt_ready_at(state, text, copied, stamp)
}

/// The dismiss timer ran out. Dismisses the overlay where the timer is
/// still armed; does nothing where it was cancelled in the meantime.
pub fn dismiss_timer_elapsed(state: &mut AppState) -> (commands: Vec<Command>)
    requires
        old(state)@.wf(),
    ensures
        final(state)@ == old(state)@.dismiss_timer_elapsed().state,
        command_views(commands@) == old(state)@.dismiss_timer_elapsed().commands,
        final(state)@.wf(),
{
    if state.dismiss_armed {
        state.dismiss_armed = false;
        dismiss_overlay(state)
    } else {
        no_commands()
    }
}

/// Reacts to one event that arrives at `now_ms`, a reading of a clock that
/// never runs backwards, in milliseconds.
pub fn handle_backend_event(state: &mut AppState, event: BackendEvent, now_ms: u64) -> (commands:
    Vec<Command>)
    requires
        old(state)@.wf(),
    ensures
        final(state)@ == old(state)@.on_event(event@, now_ms).state,
        command_views(commands@) == old(state)@.on_event(event@, now_ms).commands,
        final(state)@.wf(),
{
    match event {
        BackendEvent::HotkeyTriggered => {
            match state.status {
                AppStatus::Idle => start_recording(state),
                AppStatus::Recording => stop_recording(state),
                _ => no_commands(),
            }
        },
        BackendEvent::TranscriptionComplete(transcript) => {
            let mut commands = no_commands();
            state.overlay_phase = Some(OverlayPhase::Refining);
            push_command(&mut commands, Command::ShowPhase(OverlayPhase::Refining));
            let label = update_status(state, AppStatus::Processing, "Refining with Gemini...");
            push_command(&mut commands, label);
            let refine = dispatch_refinement(state, transcript);
            push_command(&mut commands, refine);
            commands
        },
        BackendEvent::RefinementComplete(refined) => {
            let mut commands = no_commands();
            push_command(&mut commands, Command::DeliverPrompt(refined));
            commands
        },
        BackendEvent::ProcessingError(err) => {
            let mut commands = dismiss_overlay(state);
            let message = concat_text("Error: ", err.as_str());
            let label = update_status(state, AppStatus::Idle, message.as_str());
            push_command(&mut commands, label);
            match state.model {
                ModelStage::Ready => {},
                _ => {
                    state.model = ModelStage::Missing;
                },
            }
            commands
        },
        BackendEvent::ModelDownloadProgress(downloaded, total) => {
            let mut commands = no_commands();
            if total > 0 {
                push_command(&mut commands, Command::ShowProgress { downloaded, total });
            } else {
                push_command(&mut commands, Command::PulseProgress);
            }
            commands
        },
        BackendEvent::ModelDownloadComplete => {
            let mut commands = no_commands();
            push_command(&mut commands, Command::HideProgress);
            let more = begin_model_load(state);
            extend_commands(&mut commands, more);
            commands
        },
        BackendEvent::TimerTick => {
            let mut commands = no_commands();
            match state.recording_start {
                Some(start) => {
                    let secs = if now_ms >= start {
                        (now_ms - start) / 1000
                    } else {
                        0
                    };
                    push_command(&mut commands, Command::SetTimerText(format_elapsed(secs)));
                },
                None => {},
            }
            commands
        },
        BackendEvent::AudioLevel(level) => {
            let mut commands = no_commands();
            if state.levels.len() >= LEVEL_SLOTS {
                state.levels.pop_front();
            }
            state.levels.push_back(level);
            push_command(&mut commands, Command::RedrawWaveform);
            commands
        },
        BackendEvent::OverlayClicked => {
            let mut commands = no_commands();
            match &state.overlay_phase {
                Some(OverlayPhase::Done(text)) => {
                    push_command(&mut commands, Command::CopyToClipboard(text.clone()));
                },
                _ => {},
            }
            let more = dismiss_overlay(state);
            extend_commands(&mut commands, more);
            commands
        },
    }
}

/// Takes a new trigger combination into the settings: it goes to the
/// listener, to disk and onto the dashboard.
pub fn set_hotkey(state: &mut AppState, hotkey: HotkeyConfig) -> (commands: Vec<Command>)
    requires
        old(state)@.wf(),
    ensures
        final(state)@ == old(state)@.hotkey_changed(hotkey@).state,
        command_views(commands@) == old(state)@.hotkey_changed(hotkey@).commands,
        final(state)@.wf(),
{
    let mut commands = no_commands();
    push_command(&mut commands, Command::PublishHotkey(hotkey.clone()));
    push_command(&mut commands, Command::SaveConfig);
    push_command(&mut commands, Command::SetHotkeyLabel(hotkey.display_name.clone()));
    state.config.hotkey = hotkey;
    commands
}

/// Takes a new credential into the settings and has them saved.
pub fn set_api_key(state: &mut AppState, key: String) -> (commands: Vec<Command>)
    requires
        old(state)@.wf(),
    ensures
        final(state)@ == old(state)@.api_key_changed(key@).state,
        command_views(commands@) == old(state)@.api_key_changed(key@).commands,
        final(state)@.wf(),
{
    let mut commands = no_commands();
    push_command(&mut commands, Command::SaveConfig);
    state.config.gemini_api_key = key;
    commands
}

} // verus!
