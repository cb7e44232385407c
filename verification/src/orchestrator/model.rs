//! Getting the speech model ready: download where its file is missing, then
//! load.
use crate::orchestrator::pipeline::TaskOutcome;
use crate::orchestrator::state::{command_views, concat_text, no_commands, push_command, update_status, AppState, AppStatus, BackendEvent, Command, EventView, ModelStage};
use crate::transcriber::model_exists;
use vstd::prelude::*;
use vstd::string::*;

verus! {

/// Starts to load the model and says so; the status stays as it is.
pub fn begin_model_load(state: &mut AppState) -> (commands: Vec<Command>)
    requires
        old(state)@.wf(),
    ensures
        final(state)@ == old(state)@.model_load_begun().state,
        command_views(commands@) == old(state)@.model_load_begun().commands,
        final(state)@.wf(),
{
    let mut commands = no_commands();
    state.model = ModelStage::Loading;
    push_command(&mut commands, Command::SetStatusText(String::from_str("Loading model...")));
    push_command(&mut commands, Command::LoadModel);
    commands
}

/// Starts to load the model; the session is busy until it is loaded.
pub fn load_whisper_model(state: &mut AppState) -> (commands: Vec<Command>)
    requires
        old(state)@.wf(),
    ensures
        final(state)@ == old(state)@.load_model().state,
        command_views(commands@) == old(state)@.load_model().commands,
        final(state)@.wf(),
{
    state.status = AppStatus::Processing;
    begin_model_load(state)
}

/// The loaded model arrived: the pipeline can use it, the session is idle.
pub fn model_loaded(state: &mut AppState) -> (commands: Vec<Command>)
    requires
        old(state)@.wf(),
    ensures
        final(state)@ == old(state)@.model_loaded().state,
        command_views(commands@) == old(state)@.model_loaded().commands,
        final(state)@.wf(),
{
    let mut commands = no_commands();
    state.model = ModelStage::Ready;
    push_command(&mut commands, Command::SetStatusText(String::from_str("Idle")));
    state.status = AppStatus::Idle;
    commands
}

/// Makes the model ready, given whether its file exists: loads it where it
/// does, else starts the download.
pub fn ensure_model_given(state: &mut AppState, exists: bool) -> (commands: Vec<Command>)
    requires
        old(state)@.wf(),
    ensures
        final(state)@ == old(state)@.ensure_model(exists).state,
        command_views(commands@) == old(state)@.ensure_model(exists).commands,
        final(state)@.wf(),
{
    if exists {
        load_whisper_model(state)
    } else {
        let mut commands = no_commands();
        state.model = ModelStage::Downloading;
        let label = update_status(state, AppStatus::ModelDownloading, "Downloading model...");
        push_command(&mut commands, label);
        push_command(&mut commands, Command::DownloadModel);
        commands
    }
}

/// Makes the model ready: looks for its file on disk, then loads it or
/// starts the download.
pub fn ensure_whisper_model(state: &mut AppState) -> (commands: Vec<Command>)
    requires
        old(state)@.wf(),
    ensures
        exists|found: bool|
            {
                &&& final(state)@ == old(state)@.ensure_model(found).state
                &&& command_views(commands@) == old(state)@.ensure_model(found).commands
            },
        final(state)@.wf(),
{
    let found = model_exists();
    ensure_model_given(state, found)
}

/// The event that reports the end of a download.
pub open spec fn download_event_view(outcome: Result<(), String>) -> EventView {
    match outcome {
        Ok(_) => EventView::ModelDownloadComplete,
        Err(e) => EventView::ProcessingError("Model download failed: "@ + e@),
    }
}

/// Turns what came of the download into its event.
pub fn download_event(outcome: Result<(), String>) -> (event: BackendEvent)
    ensures
        event@ == download_event_view(outcome),
{
    match outcome {
        Ok(_) => BackendEvent::ModelDownloadComplete,
        Err(e) => BackendEvent::ProcessingError(concat_text("Model download failed: ", e.as_str())),
    }
}

/// The event that reports a failed load; a model that loaded is handed
/// over directly and gives no event.
pub open spec fn load_event_view(outcome: TaskOutcome<()>) -> Option<EventView> {
    match outcome {
        TaskOutcome::Finished(Ok(_)) => None,
        TaskOutcome::Finished(Err(e)) => Some(
            EventView::ProcessingError("Failed to load model: "@ + e@),
        ),
        TaskOutcome::Aborted(e) => Some(EventView::ProcessingError("Model load panicked: "@ + e@)),
    }
}

/// The view of an optional event.
pub open spec fn event_view(event: Option<BackendEvent>) -> Option<EventView> {
    match event {
        Some(e) => Some(e@),
        None => None,
    }
}

/// Turns what came of the load task into its event, if it gives one.
pub fn load_event(outcome: TaskOutcome<()>) -> (event: Option<BackendEvent>)
    ensures
        event_view(event) == load_event_view(outcome),
{
    match outcome {
        TaskOutcome::Finished(Ok(_)) => None,
        TaskOutcome::Finished(Err(e)) => Some(
            BackendEvent::ProcessingError(concat_text("Failed to load model: ", e.as_str())),
        ),
        TaskOutcome::Aborted(e) => Some(
            BackendEvent::ProcessingError(concat_text("Model load panicked: ", e.as_str())),
        ),
    }
}

/// How far a download has come.
#[derive(Debug, Clone, Copy, PartialEq, Eq, Structural)]
pub struct DownloadProgress {
    /// Bytes received so far.
    pub downloaded: u64,
    /// Bytes expected in all; 0 where the server did not say.
    pub total: u64,
}

impl DownloadProgress {
    /// A download that starts, of the length that the server announced.
    pub fn begin(content_length: Option<u64>) -> (progress: Self)
        ensures
            progress.downloaded == 0,
            progress.total == (match content_length {
                Some(n) => n,
                None => 0u64,
            }),
    {
        DownloadProgress {
            downloaded: 0,
            total: match content_length {
                Some(n) => n,
                None => 0,
            },
        }
    }

    /// Whether a chunk of `len` bytes can be counted.
    pub fn can_receive(&self, len: usize) -> (ok: bool)
        ensures
            ok == (self.downloaded + len <= u64::MAX),
    {
        len as u64 <= u64::MAX - self.downloaded
    }

    /// Counts a chunk of `len` bytes and gives the event that reports the
    /// new count.
    pub fn receive(&mut self, len: usize) -> (event: BackendEvent)
        requires
            old(self).downloaded + len <= u64::MAX,
        ensures
            final(self).downloaded == old(self).downloaded + len,
            final(self).total == old(self).total,
            event@ == EventView::ModelDownloadProgress(final(self).downloaded, final(self).total),
    {
        self.downloaded = self.downloaded + len as u64;
        BackendEvent::ModelDownloadProgress(self.downloaded, self.total)
    }
}

} // verus!
