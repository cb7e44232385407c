//! The session state, the events that change it and the commands it issues.
use crate::audio_feedback::BeepType;
use crate::config::{Config, ConfigView, HotkeyConfig, HotkeyConfigView};
use crate::stats::{Stats, StatsView};
use std::collections::VecDeque;
use vstd::prelude::*;
use vstd::string::*;

verus! {

/// The number of levels that the waveform keeps.
pub const LEVEL_SLOTS: usize = 24;

/// The sample rate that a capture aims at, in hertz.
pub const TARGET_SAMPLE_RATE: u32 = 16000;

/// Coarse application status: exactly one value at a time.
#[derive(Debug, Clone, Copy, PartialEq, Eq, Structural)]
pub enum AppStatus {
    Idle,
    Recording,
    Processing,
    ModelDownloading,
}

/// Where the speech model stands on its way to use.
#[derive(Debug, Clone, Copy, PartialEq, Eq, Structural)]
pub enum ModelStage {
    Missing,
    Downloading,
    Loading,
    Ready,
}

/// The stage of the pipeline that the overlay shows.
#[derive(Debug, PartialEq, Eq)]
pub enum OverlayPhase {
    Recording,
    Transcribing,
    Refining,
    Done(String),
}

/// What an `OverlayPhase` holds.
pub enum PhaseView {
    Recording,
    Transcribing,
    Refining,
    Done(Seq<char>),
}

impl View for OverlayPhase {
    type V = PhaseView;

    open spec fn view(&self) -> PhaseView {
        match self {
            OverlayPhase::Recording => PhaseView::Recording,
            OverlayPhase::Transcribing => PhaseView::Transcribing,
            OverlayPhase::Refining => PhaseView::Refining,
            OverlayPhase::Done(text) => PhaseView::Done(text@),
        }
    }
}

impl Clone for OverlayPhase {
    fn clone(&self) -> (copy: Self)
        ensures
            copy@ == self@,
    {
        match self {
            OverlayPhase::Recording => OverlayPhase::Recording,
            OverlayPhase::Transcribing => OverlayPhase::Transcribing,
            OverlayPhase::Refining => OverlayPhase::Refining,
            OverlayPhase::Done(text) => OverlayPhase::Done(text.clone()),
        }
    }
}

/// The view of an optional phase.
pub open spec fn phase_view(phase: Option<OverlayPhase>) -> Option<PhaseView> {
    match phase {
        Some(p) => Some(p@),
        None => None,
    }
}

/// A message to the orchestrator. A level is the bit pattern of a 32-bit
/// float.
#[derive(Debug, PartialEq, Eq)]
pub enum BackendEvent {
    HotkeyTriggered,
    TranscriptionComplete(String),
    RefinementComplete(String),
    ProcessingError(String),
    ModelDownloadProgress(u64, u64),
    ModelDownloadComplete,
    TimerTick,
    AudioLevel(u32),
    OverlayClicked,
}

impl Clone for BackendEvent {
    fn clone(&self) -> (copy: Self)
        ensures
            copy@ == self@,
    {
        match self {
            BackendEvent::HotkeyTriggered => BackendEvent::HotkeyTriggered,
            BackendEvent::TranscriptionComplete(t) => BackendEvent::TranscriptionComplete(t.clone()),
            BackendEvent::RefinementComplete(t) => BackendEvent::RefinementComplete(t.clone()),
            BackendEvent::ProcessingError(e) => BackendEvent::ProcessingError(e.clone()),
            BackendEvent::ModelDownloadProgress(d, t) => BackendEvent::ModelDownloadProgress(*d, *t),
            BackendEvent::ModelDownloadComplete => BackendEvent::ModelDownloadComplete,
            BackendEvent::TimerTick => BackendEvent::TimerTick,
            BackendEvent::AudioLevel(v) => BackendEvent::AudioLevel(*v),
            BackendEvent::OverlayClicked => BackendEvent::OverlayClicked,
        }
    }
}

/// What a `BackendEvent` holds.
pub enum EventView {
    HotkeyTriggered,
    TranscriptionComplete(Seq<char>),
    RefinementComplete(Seq<char>),
    ProcessingError(Seq<char>),
    ModelDownloadProgress(u64, u64),
    ModelDownloadComplete,
    TimerTick,
    AudioLevel(u32),
    OverlayClicked,
}

impl View for BackendEvent {
    type V = EventView;

    open spec fn view(&self) -> EventView {
        match self {
            BackendEvent::HotkeyTriggered => EventView::HotkeyTriggered,
            BackendEvent::TranscriptionComplete(t) => EventView::TranscriptionComplete(t@),
            BackendEvent::RefinementComplete(t) => EventView::RefinementComplete(t@),
            BackendEvent::ProcessingError(e) => EventView::ProcessingError(e@),
            BackendEvent::ModelDownloadProgress(d, t) => EventView::ModelDownloadProgress(*d, *t),
            BackendEvent::ModelDownloadComplete => EventView::ModelDownloadComplete,
            BackendEvent::TimerTick => EventView::TimerTick,
            BackendEvent::AudioLevel(v) => EventView::AudioLevel(*v),
            BackendEvent::OverlayClicked => EventView::OverlayClicked,
        }
    }
}

/// Something for the caller to carry out.
#[derive(Debug, PartialEq, Eq)]
pub enum Command {
    /// Show this text in the status line.
    SetStatusText(String),
    /// Lay the overlay out for this phase.
    ShowPhase(OverlayPhase),
    /// Make the overlay visible.
    ShowOverlay,
    /// Hide the overlay.
    HideOverlay,
    /// Show this text as the elapsed time.
    SetTimerText(String),
    /// Draw the waveform again from the level history.
    RedrawWaveform,
    /// Show the totals of words and prompts.
    SetCounters { words: usize, prompts: usize },
    /// Show the download's progress as `downloaded` of `total` bytes.
    ShowProgress { downloaded: u64, total: u64 },
    /// Show that the download goes on, its size unknown.
    PulseProgress,
    /// Hide the download's progress.
    HideProgress,
    /// Show this text as the configured combination.
    SetHotkeyLabel(String),
    /// Play a cue without waiting for it.
    PlayCue(BeepType),
    /// Empty the shared sample buffer.
    ClearAudioBuffer,
    /// Open the input device and start to capture; answer with
    /// `capture_started`.
    OpenCapture,
    /// Release the input device.
    CloseCapture,
    /// Start the periodic tick of the waveform and the clock.
    StartTicker,
    /// Stop the periodic tick.
    StopTicker,
    /// Copy the sample buffer; answer with `audio_captured`.
    SnapshotAudio,
    /// Transcribe the copy of the sample buffer in the background.
    Transcribe,
    /// Refine the transcript in the background, with this credential.
    Refine { api_key: String, transcript: String },
    /// Copy the prompt to the clipboard; answer with `on_prompt_ready`.
    DeliverPrompt(String),
    /// Copy the text to the clipboard, whatever comes of it.
    CopyToClipboard(String),
    /// Write the statistics to disk.
    SaveStats,
    /// Write the settings to disk.
    SaveConfig,
    /// Hand the new combination to the listener.
    PublishHotkey(HotkeyConfig),
    /// Arm the timer that dismisses the overlay after `DISMISS_SECS`.
    ArmDismissTimer,
    /// Cancel the armed dismiss timer.
    CancelDismissTimer,
    /// Download the speech model in the background.
    DownloadModel,
    /// Load the speech model in the background.
    LoadModel,
}

/// What a `Command` holds.
pub enum CommandView {
    SetStatusText(Seq<char>),
    ShowPhase(PhaseView),
    ShowOverlay,
    HideOverlay,
    SetTimerText(Seq<char>),
    RedrawWaveform,
    SetCounters { words: usize, prompts: usize },
    ShowProgress { downloaded: u64, total: u64 },
    PulseProgress,
    HideProgress,
    SetHotkeyLabel(Seq<char>),
    PlayCue(BeepType),
    ClearAudioBuffer,
    OpenCapture,
    CloseCapture,
    StartTicker,
    StopTicker,
    SnapshotAudio,
    Transcribe,
    Refine { api_key: Seq<char>, transcript: Seq<char> },
    DeliverPrompt(Seq<char>),
    CopyToClipboard(Seq<char>),
    SaveStats,
    SaveConfig,
    PublishHotkey(HotkeyConfigView),
    ArmDismissTimer,
    CancelDismissTimer,
    DownloadModel,
    LoadModel,
}

impl View for Command {
    type V = CommandView;

    open spec fn view(&self) -> CommandView {
        match self {
            Command::SetStatusText(t) => CommandView::SetStatusText(t@),
            Command::ShowPhase(p) => CommandView::ShowPhase(p@),
            Command::ShowOverlay => CommandView::ShowOverlay,
            Command::HideOverlay => CommandView::HideOverlay,
            Command::SetTimerText(t) => CommandView::SetTimerText(t@),
            Command::RedrawWaveform => CommandView::RedrawWaveform,
            Command::SetCounters { words, prompts } => CommandView::SetCounters {
                words: *words,
                prompts: *prompts,
            },
            Command::ShowProgress { downloaded, total } => CommandView::ShowProgress {
                downloaded: *downloaded,
                total: *total,
            },
            Command::PulseProgress => CommandView::PulseProgress,
            Command::HideProgress => CommandView::HideProgress,
            Command::SetHotkeyLabel(t) => CommandView::SetHotkeyLabel(t@),
            Command::PlayCue(b) => CommandView::PlayCue(*b),
            Command::ClearAudioBuffer => CommandView::ClearAudioBuffer,
            Command::OpenCapture => CommandView::OpenCapture,
            Command::CloseCapture => CommandView::CloseCapture,
            Command::StartTicker => CommandView::StartTicker,
            Command::StopTicker => CommandView::StopTicker,
            Command::SnapshotAudio => CommandView::SnapshotAudio,
            Command::Transcribe => CommandView::Transcribe,
            Command::Refine { api_key, transcript } => CommandView::Refine {
                api_key: api_key@,
                transcript: transcript@,
            },
            Command::DeliverPrompt(t) => CommandView::DeliverPrompt(t@),
            Command::CopyToClipboard(t) => CommandView::CopyToClipboard(t@),
            Command::SaveStats => CommandView::SaveStats,
            Command::SaveConfig => CommandView::SaveConfig,
            Command::PublishHotkey(h) => CommandView::PublishHotkey(h@),
            Command::ArmDismissTimer => CommandView::ArmDismissTimer,
            Command::CancelDismissTimer => CommandView::CancelDismissTimer,
            Command::DownloadModel => CommandView::DownloadModel,
            Command::LoadModel => CommandView::LoadModel,
        }
    }
}

/// The views of a list of commands.
pub open spec fn command_views(commands: Seq<Command>) -> Seq<CommandView> {
    commands.map_values(|c: Command| c@)
}

/// The view of what came of an attempt that may fail with a message.
pub open spec fn outcome_view<T>(outcome: Result<T, String>) -> Result<T, Seq<char>> {
    match outcome {
        Ok(v) => Ok(v),
        Err(e) => Err(e@),
    }
}

/// What an `AppState` holds.
pub struct StateView {
    pub status: AppStatus,
    pub config: ConfigView,
    pub stats: StatsView,
    pub model: ModelStage,
    /// The input device is open and fills the sample buffer.
    pub capture_active: bool,
    /// The periodic tick of the waveform and the clock runs.
    pub tick_active: bool,
    /// When the running recording started, in milliseconds.
    pub recording_start: Option<u64>,
    pub sample_rate: u32,
    pub overlay_phase: Option<PhaseView>,
    /// The timer that dismisses the overlay is armed.
    pub dismiss_armed: bool,
    /// The level history of the waveform, oldest first.
    pub levels: Seq<u32>,
}

impl StateView {
    /// What holds of every session state: the level history is bounded; the
    /// capture, the tick and the start time exist together; and while the
    /// status is `Recording` they exist.
    pub open spec fn wf(self) -> bool {
        &&& self.levels.len() <= LEVEL_SLOTS
        &&& self.capture_active == self.tick_active
        &&& self.capture_active == self.recording_start is Some
        &&& self.status is Recording ==> self.capture_active
    }

    /// The state in which a session starts.
    pub open spec fn initial(config: ConfigView, stats: StatsView) -> StateView {
        StateView {
            status: AppStatus::Idle,
            config,
            stats,
            model: ModelStage::Missing,
            capture_active: false,
            tick_active: false,
            recording_start: None,
            sample_rate: TARGET_SAMPLE_RATE,
            overlay_phase: None,
            dismiss_armed: false,
            levels: Seq::new(LEVEL_SLOTS as nat, |i: int| 0u32),
        }
    }
}

/// The one session state, owned by the orchestrator.
#[derive(Debug)]
pub struct AppState {
    pub(crate) status: AppStatus,
    pub(crate) config: Config,
    pub(crate) stats: Stats,
    pub(crate) model: ModelStage,
    pub(crate) capture_active: bool,
    pub(crate) tick_active: bool,
    pub(crate) recording_start: Option<u64>,
    pub(crate) sample_rate: u32,
    pub(crate) overlay_phase: Option<OverlayPhase>,
    pub(crate) dismiss_armed: bool,
    pub(crate) levels: VecDeque<u32>,
}

impl View for AppState {
    type V = StateView;

    open(crate) spec fn view(&self) -> StateView {
        StateView {
            status: self.status,
            config: self.config@,
            stats: self.stats@,
            model: self.model,
            capture_active: self.capture_active,
            tick_active: self.tick_active,
            recording_start: self.recording_start,
            sample_rate: self.sample_rate,
            overlay_phase: phase_view(self.overlay_phase),
            dismiss_armed: self.dismiss_armed,
            levels: self.levels@,
        }
    }
}

/// Appends one command.
pub(crate) fn push_command(commands: &mut Vec<Command>, command: Command)
    ensures
        command_views(final(commands)@) == command_views(old(commands)@).push(command@),
{
    commands.push(command);
}

/// Appends the commands of `more`, in order.
pub(crate) fn extend_commands(commands: &mut Vec<Command>, more: Vec<Command>)
    ensures
        command_views(final(commands)@) == command_views(old(commands)@) + command_views(more@),
{
    let mut rest = more;
    commands.append(&mut rest);
}

/// An empty list of commands.
pub(crate) fn no_commands() -> (commands: Vec<Command>)
    ensures
        command_views(commands@) == Seq::<CommandView>::empty(),
{
    let commands: Vec<Command> = Vec::new();
    commands
}

/// `prefix` followed by `rest`.
pub(crate) fn concat_text(prefix: &str, rest: &str) -> (text: String)
    ensures
        text@ == prefix@ + rest@,
{
    String::from_str(prefix).concat(rest)
}

impl AppState {
    /// A session at rest: idle, no overlay, no model, a level history of
    /// `LEVEL_SLOTS` zeros, and the settings and statistics given.
    pub fn new(config: Config, stats: Stats) -> (state: AppState)
        ensures
            state@ == StateView::initial(config@, stats@),
            state@.wf(),
    {
        let mut levels: VecDeque<u32> = VecDeque::new();
        let mut i: usize = 0;
        while i < LEVEL_SLOTS
            invariant
                i <= LEVEL_SLOTS,
                levels@.len() == i,
                forall|j: int| 0 <= j < i ==> levels@[j] == 0u32,
            decreases LEVEL_SLOTS - i,
        {
            levels.push_back(0);
            i += 1;
        }
        proof {
            assert(levels@ =~= Seq::new(LEVEL_SLOTS as nat, |i: int| 0u32));
        }
        AppState {
            status: AppStatus::Idle,
            config,
            stats,
            model: ModelStage::Missing,
            capture_active: false,
            tick_active: false,
            recording_start: None,
            sample_rate: TARGET_SAMPLE_RATE,
            overlay_phase: None,
            dismiss_armed: false,
            levels,
        }
    }

    /// The status.
    pub fn status(&self) -> (status: AppStatus)
        ensures
            status == self@.status,
    {
        self.status
    }

    /// The phase that the overlay shows, if it shows one.
    pub fn overlay_phase(&self) -> (phase: Option<OverlayPhase>)
        ensures
            phase_view(phase) == self@.overlay_phase,
    {
        match &self.overlay_phase {
            Some(p) => Some(p.clone()),
            None => None,
        }
    }

    /// Where the speech model stands.
    pub fn model_stage(&self) -> (stage: ModelStage)
        ensures
            stage == self@.model,
    {
        self.model
    }

    /// Whether the input device is open.
    pub fn capture_active(&self) -> (active: bool)
        ensures
            active == self@.capture_active,
    {
        self.capture_active
    }

    /// Whether the periodic tick runs.
    pub fn ticker_active(&self) -> (active: bool)
        ensures
            active == self@.tick_active,
    {
        self.tick_active
    }

    /// When the running recording started, in milliseconds.
    pub fn recording_start(&self) -> (start: Option<u64>)
        ensures
            start == self@.recording_start,
    {
        self.recording_start
    }

    /// The sample rate of the last capture, in hertz.
    pub fn sample_rate(&self) -> (rate: u32)
        ensures
            rate == self@.sample_rate,
    {
        self.sample_rate
    }

    /// Whether the dismiss timer is armed.
    pub fn dismiss_armed(&self) -> (armed: bool)
        ensures
            armed == self@.dismiss_armed,
    {
        self.dismiss_armed
    }

    /// The level history of the waveform, oldest first.
    pub fn levels(&self) -> (levels: Vec<u32>)
        ensures
            levels@ == self@.levels,
    {
        let mut levels: Vec<u32> = Vec::new();
        let mut i: usize = 0;
        while i < self.levels.len()
            invariant
                i <= self.levels@.len(),
                levels@ == self.levels@.take(i as int),
            decreases self.levels@.len() - i,
        {
            levels.push(self.levels[i]);
            i += 1;
        }
        levels
    }

    /// The settings.
    pub fn config(&self) -> (config: &Config)
        ensures
            config@ == self@.config,
    {
        &self.config
    }

    /// The statistics.
    pub fn stats(&self) -> (stats: &Stats)
        ensures
            stats@ == self@.stats,
    {
        &self.stats
    }
}

/// Sets the status and shows `label_text` in the status line. The status
/// `Recording` is for a session whose input device is open.
pub fn update_status(state: &mut AppState, status: AppStatus, label_text: &str) -> (command:
    Command)
    requires
        old(state)@.wf(),
        status is Recording ==> old(state)@.capture_active,
    ensures
        final(state)@ == old(state)@.status_updated(status, label_text@).state,
        seq![command@] == old(state)@.status_updated(status, label_text@).commands,
        command@ == CommandView::SetStatusText(label_text@),
        final(state)@.wf(),
{
    state.status = status;
    Command::SetStatusText(String::from_str(label_text))
}

} // verus!
