//! Handing work to the background, and turning what comes back into events.
use crate::orchestrator::event_handler::dismiss_overlay;
use crate::orchestrator::state::{command_views, concat_text, no_commands, push_command, update_status, AppState, AppStatus, BackendEvent, Command, EventView, ModelStage};
use vstd::prelude::*;
use vstd::string::*;

verus! {

/// What came of a background task: it ran to its end, with a result or an
/// error of its own, or it broke off.
#[derive(Debug, PartialEq, Eq)]
pub enum TaskOutcome<T> {
    /// The task returned.
    Finished(Result<T, String>),
    /// The task panicked or was cancelled; the text describes how.
    Aborted(String),
}

/// Sends the samples to transcription where a model is loaded. Without
/// one nothing is dispatched: the overlay is dismissed, the session is idle
/// again and shows that no model is loaded.
pub fn dispatch_transcription(state: &mut AppState) -> (commands: Vec<Command>)
    requires
        old(state)@.wf(),
    ensures
        final(state)@ == old(state)@.dispatch_transcription().state,
        command_views(commands@) == old(state)@.dispatch_transcription().commands,
        final(state)@.wf(),
{
    match state.model {
        ModelStage::Ready => {
            let mut commands = no_commands();
            push_command(&mut commands, Command::Transcribe);
            commands
        },
        _ => {
            let mut commands = dismiss_overlay(state);
            let label = update_status(state, AppStatus::Idle, "Whisper model not loaded");
            push_command(&mut commands, label);
            commands
        },
    }
}

/// The command that sends `transcript` to refinement, with the configured
/// credential.
pub fn dispatch_refinement(state: &AppState, transcript: String) -> (command: Command)
    ensures
        command@ == state@.dispatch_refinement(transcript@),
{
    Command::Refine { api_key: state.config.gemini_api_key.clone(), transcript }
}

/// The event that reports a transcription.
pub open spec fn transcription_event_view(outcome: TaskOutcome<String>) -> EventView {
    match outcome {
        TaskOutcome::Finished(Ok(text)) => EventView::TranscriptionComplete(text@),
        TaskOutcome::Finished(Err(e)) => EventView::ProcessingError("Transcription failed: "@ + e@),
        TaskOutcome::Aborted(e) => EventView::ProcessingError(
            "Transcription task panicked: "@ + e@,
        ),
    }
}

/// Turns what came of the transcription task into its event: the
/// transcript, or the error to report.
pub fn transcription_event(outcome: TaskOutcome<String>) -> (event: BackendEvent)
    ensures
        event@ == transcription_event_view(outcome),
{
    match outcome {
        TaskOutcome::Finished(Ok(text)) => BackendEvent::TranscriptionComplete(text),
        TaskOutcome::Finished(Err(e)) => BackendEvent::ProcessingError(
            concat_text("Transcription failed: ", e.as_str()),
        ),
        TaskOutcome::Aborted(e) => BackendEvent::ProcessingError(
            concat_text("Transcription task panicked: ", e.as_str()),
        ),
    }
}

/// The text that a refinement delivers: the refined text, or the
/// transcript as it was where the refinement failed.
pub open spec fn delivered_text(transcript: Seq<char>, outcome: Result<Seq<char>, Seq<char>>) -> Seq<
    char,
> {
    match outcome {
        Ok(refined) => refined,
        Err(_) => transcript,
    }
}

/// The view of what came of a refinement.
pub open spec fn refinement_view(outcome: Result<String, String>) -> Result<Seq<char>, Seq<char>> {
    match outcome {
        Ok(t) => Ok(t@),
        Err(e) => Err(e@),
    }
}

/// Turns what came of a refinement into its event. A failed refinement is
/// no error: the transcript is delivered as it was.
pub fn refinement_event(transcript: String, outcome: Result<String, String>) -> (event: BackendEvent)
    ensures
        event@ == EventView::RefinementComplete(
            delivered_text(transcript@, refinement_view(outcome)),
        ),
{
    match outcome {
        Ok(refined) => BackendEvent::RefinementComplete(refined),
        Err(_) => BackendEvent::RefinementComplete(transcript),
    }
}

} // verus!
