//! What holds of the session whatever arrives: the laws of the orchestrator.
use crate::config::HotkeyConfigView;
use crate::orchestrator::pipeline::delivered_text;
use crate::orchestrator::state::{AppStatus, CommandView, EventView, PhaseView, StateView, LEVEL_SLOTS};
use crate::orchestrator::transitions::{pushed_level, Reaction};
use crate::stats::PromptRecordView;
use crate::text::word_count;
use vstd::prelude::*;

verus! {

/// Anything that the orchestrator reacts to: an event, or the answer to a
/// command that asked for one.
pub enum Input {
    /// An event of the event channel.
    Event(EventView),
    /// The input device answered an `OpenCapture`.
    CaptureAnswer(Result<u32, Seq<char>>),
    /// The copy of the sample buffer that a `SnapshotAudio` asked for holds
    /// this many samples.
    AudioAnswer(nat),
    /// The clipboard answered a `DeliverPrompt`.
    ClipboardAnswer { text: Seq<char>, copied: Result<(), Seq<char>>, timestamp: Seq<char> },
    /// The dismiss timer ran out.
    DismissTimer,
    /// The loaded model arrived.
    ModelLoaded,
    /// The model is to be made ready; its file exists or not.
    EnsureModel(bool),
    /// The model is to be loaded.
    LoadModel,
    /// A new combination was chosen.
    HotkeyChanged(HotkeyConfigView),
    /// A new credential was entered.
    ApiKeyChanged(Seq<char>),
}

impl StateView {
    /// The reaction to any input that arrives at `now`.
    pub open spec fn react(self, input: Input, now: u64) -> Reaction {
        match input {
            Input::Event(e) => self.on_event(e, now),
            Input::CaptureAnswer(outcome) => self.capture_started(outcome, now),
            Input::AudioAnswer(samples) => self.audio_captured(samples),
            Input::ClipboardAnswer { text, copied, timestamp } => self.prompt_ready(
                text,
                copied,
                timestamp,
            ),
            Input::DismissTimer => self.dismiss_timer_elapsed(),
            Input::ModelLoaded => self.model_loaded(),
            Input::EnsureModel(exists) => self.ensure_model(exists),
            Input::LoadModel => self.load_model(),
            Input::HotkeyChanged(hotkey) => self.hotkey_changed(hotkey),
            Input::ApiKeyChanged(key) => self.api_key_changed(key),
        }
    }

    /// The overlay shows `Recording` only while the status is `Recording`.
    pub open spec fn coupled(self) -> bool {
        self.overlay_phase == Some(PhaseView::Recording) ==> self.status is Recording
    }

    /// The map of phase and status: an overlay that shows `Recording`
    /// goes with the status `Recording`, one that shows `Transcribing` or
    /// `Refining` with `Processing`, one that shows a finished prompt with
    /// `Idle`; a hidden overlay goes with every status.
    pub open spec fn in_phase_map(self) -> bool {
        match self.overlay_phase {
            None => true,
            Some(PhaseView::Recording) => self.status is Recording,
            Some(PhaseView::Transcribing) => self.status is Processing,
            Some(PhaseView::Refining) => self.status is Processing,
            Some(PhaseView::Done(_)) => self.status is Idle,
        }
    }

    /// The answers that set a status which the phase on show does not go
    /// with: an input device that failed to open, or a model that arrived,
    /// while the overlay shows a stage of the pipeline; a model that is to
    /// be loaded while the overlay shows a recording or a finished prompt;
    /// a download that is to start while the overlay shows anything.
    pub open spec fn unsettles(self, input: Input) -> bool {
        let shown = self.overlay_phase is Some;
        let done = self.overlay_phase matches Some(PhaseView::Done(_));
        let recording = self.overlay_phase == Some(PhaseView::Recording);
        match input {
            Input::CaptureAnswer(outcome) => outcome is Err && shown && !done,
            Input::ModelLoaded => shown && !done,
            Input::LoadModel => recording || done,
            Input::EnsureModel(exists) => if exists {
                recording || done
            } else {
                shown
            },
            _ => false,
        }
    }

    /// None of the inputs of the sequence unsettles the state it arrives at.
    pub open spec fn settles_all(self, inputs: Seq<(Input, u64)>) -> bool
        decreases inputs.len(),
    {
        if inputs.len() == 0 {
            true
        } else {
            &&& self.settles_all(inputs.drop_last())
            &&& !self.run(inputs.drop_last()).unsettles(inputs.last().0)
        }
    }

    /// The input device is open exactly while the status is `Recording`.
    pub open spec fn exclusive(self) -> bool {
        self.capture_active <==> self.status is Recording
    }

    /// The inputs that set the status aside and leave the phase of the
    /// overlay as it is: an input device that failed to open, and the steps
    /// of getting the model ready.
    pub open spec fn leaves_phase(self, input: Input) -> bool {
        match input {
            Input::CaptureAnswer(outcome) => outcome is Err,
            Input::ModelLoaded => true,
            Input::EnsureModel(_) => true,
            Input::LoadModel => true,
            _ => false,
        }
    }

    /// The inputs that take the status away from `Recording` and leave the
    /// input device open: results of background work and answers that
    /// belong to no recording.
    pub open spec fn interrupts(self, input: Input) -> bool {
        match input {
            Input::Event(EventView::TranscriptionComplete(_)) => true,
            Input::Event(EventView::ProcessingError(_)) => true,
            Input::CaptureAnswer(outcome) => outcome is Err,
            Input::AudioAnswer(samples) => samples == 0 || !(self.model is Ready),
            Input::ClipboardAnswer { .. } => true,
            Input::ModelLoaded => true,
            Input::EnsureModel(_) => true,
            Input::LoadModel => true,
            _ => false,
        }
    }

    /// The input does not interrupt a recording: the session is not
    /// recording, or the input is none of those that interrupt.
    pub open spec fn admits(self, input: Input) -> bool {
        !(self.status is Recording && self.interrupts(input))
    }

    /// The state after a sequence of inputs, each with its time of arrival.
    pub open spec fn run(self, inputs: Seq<(Input, u64)>) -> StateView
        decreases inputs.len(),
    {
        if inputs.len() == 0 {
            self
        } else {
            self.run(inputs.drop_last()).react(inputs.last().0, inputs.last().1).state
        }
    }

    /// Every input of the sequence is admitted by the state it arrives at.
    pub open spec fn admits_all(self, inputs: Seq<(Input, u64)>) -> bool
        decreases inputs.len(),
    {
        if inputs.len() == 0 {
            true
        } else {
            &&& self.admits_all(inputs.drop_last())
            &&& self.run(inputs.drop_last()).admits(inputs.last().0)
        }
    }

    /// The state after a sequence of levels arrived.
    pub open spec fn after_levels(self, levels: Seq<u32>) -> StateView
        decreases levels.len(),
    {
        if levels.len() == 0 {
            self
        } else {
            self.after_levels(levels.drop_last()).on_event(
                EventView::AudioLevel(levels.last()),
                0,
            ).state
        }
    }
}

/// What the caller answers in the course of one trigger: what the input
/// device says should it be asked, and how many samples the buffer holds
/// should it be copied.
pub struct TriggerAnswers {
    pub capture: Result<u32, Seq<char>>,
    pub samples: nat,
}

impl StateView {
    /// The state after one trigger at `now` and the answers it asked for.
    pub open spec fn triggered(self, answers: TriggerAnswers, now: u64) -> StateView {
        let first = self.on_event(EventView::HotkeyTriggered, now).state;
        match self.status {
            AppStatus::Idle => first.capture_started(answers.capture, now).state,
            AppStatus::Recording => first.audio_captured(answers.samples).state,
            _ => first,
        }
    }

    /// The state after a sequence of triggers, each with its answers and
    /// its time.
    pub open spec fn after_triggers(self, rounds: Seq<(TriggerAnswers, u64)>) -> StateView
        decreases rounds.len(),
    {
        if rounds.len() == 0 {
            self
        } else {
            self.after_triggers(rounds.drop_last()).triggered(rounds.last().0, rounds.last().1)
        }
    }
}

/// The last `LEVEL_SLOTS` items of a sequence, or all of a shorter one.
pub open spec fn newest(levels: Seq<u32>) -> Seq<u32> {
    if levels.len() > LEVEL_SLOTS {
        levels.subrange(levels.len() - LEVEL_SLOTS, levels.len() as int)
    } else {
        levels
    }
}

/// The commands that ask the caller for an answer.
pub open spec fn asks_for_answer(command: CommandView) -> bool {
    command is OpenCapture || command is SnapshotAudio || command is DeliverPrompt
}

/// A command that asks for an answer is the last of its list: nothing
/// that was commanded is left undone when the answer arrives.
pub proof fn questions_come_last(state: StateView, input: Input, now: u64)
    ensures
        forall|i: int|
            #![trigger state.react(input, now).commands[i]]
            0 <= i < state.react(input, now).commands.len() && asks_for_answer(
                state.react(input, now).commands[i],
            ) ==> i == state.react(input, now).commands.len() - 1,
{
}

/// Every reaction keeps the session state well formed.
pub proof fn validity_is_preserved(state: StateView, input: Input, now: u64)
    requires
        state.wf(),
    ensures
        state.react(input, now).state.wf(),
{
}

/// A trigger that arrives while the session is processing or downloading
/// the model changes nothing and issues no command.
pub proof fn busy_trigger_is_ignored(state: StateView, now: u64)
    requires
        state.status is Processing || state.status is ModelDownloading,
    ensures
        state.on_event(EventView::HotkeyTriggered, now) == state.unchanged(),
{
}

/// A trigger asks for the input device only where the session is idle and
/// the device is not open, and releases it only where it is open.
pub proof fn trigger_opens_one_capture(state: StateView, now: u64)
    requires
        state.wf(),
        state.exclusive(),
    ensures
        ({
            let commands = state.on_event(EventView::HotkeyTriggered, now).commands;
            &&& commands.contains(CommandView::OpenCapture) ==> state.status is Idle
                && !state.capture_active
            &&& commands.contains(CommandView::CloseCapture) ==> state.status is Recording
                && state.capture_active
            &&& !(commands.contains(CommandView::OpenCapture) && commands.contains(
                CommandView::CloseCapture,
            ))
        }),
{
}

/// Whatever the answers, after any sequence of triggers the input device
/// is open exactly while the session records, and together with the tick:
/// a trigger opens it from idle alone, so no two recordings overlap.
pub proof fn triggers_never_overlap(state: StateView, rounds: Seq<(TriggerAnswers, u64)>)
    requires
        state.wf(),
        state.exclusive(),
    ensures
        state.after_triggers(rounds).wf(),
        state.after_triggers(rounds).exclusive(),
        state.coupled() ==> state.after_triggers(rounds).coupled(),
        state.in_phase_map() ==> state.after_triggers(rounds).in_phase_map(),
    decreases rounds.len(),
{
    if rounds.len() > 0 {
        triggers_never_overlap(state, rounds.drop_last());
        if state.in_phase_map() {
            triggers_stay_in_phase_map(
                state.after_triggers(rounds.drop_last()),
                rounds.last().0,
                rounds.last().1,
            );
        }
    }
}

/// A reaction keeps the input device open exactly while the status is
/// `Recording`, but for the inputs that interrupt a recording.
pub proof fn exclusion_is_preserved(state: StateView, input: Input, now: u64)
    requires
        state.wf(),
        state.exclusive(),
    ensures
        state.react(input, now).state.exclusive() <==> state.admits(input),
{
}

/// A reaction keeps the overlay from showing `Recording` while the status
/// is another, but where the overlay shows `Recording` and the input sets
/// the status aside.
pub proof fn coupling_is_preserved(state: StateView, input: Input, now: u64)
    requires
        state.coupled(),
    ensures
        state.react(input, now).state.coupled() <==> !(state.overlay_phase == Some(
            PhaseView::Recording,
        ) && state.leaves_phase(input)),
{
}

/// No event breaks the coupling of phase and status, whatever the state
/// it arrives at.
pub proof fn events_keep_coupling(state: StateView, event: EventView, now: u64)
    requires
        state.coupled(),
    ensures
        state.on_event(event, now).state.coupled(),
{
}

/// Every event keeps phase and status in their map, whatever the state it
/// arrives at.
pub proof fn events_stay_in_phase_map(state: StateView, event: EventView, now: u64)
    requires
        state.in_phase_map(),
    ensures
        state.on_event(event, now).state.in_phase_map(),
{
}

/// A trigger with the answers it asked for keeps phase and status in their
/// map, whatever the answers: a recording that starts or fails to start, a
/// stop with or without samples, with or without a model.
pub proof fn triggers_stay_in_phase_map(state: StateView, answers: TriggerAnswers, now: u64)
    requires
        state.in_phase_map(),
    ensures
        state.triggered(answers, now).in_phase_map(),
{
}

/// A reaction keeps phase and status in their map, but for the answers
/// that unsettle the state.
pub proof fn phase_map_is_preserved(state: StateView, input: Input, now: u64)
    requires
        state.in_phase_map(),
    ensures
        state.react(input, now).state.in_phase_map() <==> !state.unsettles(input),
{
}

/// After any sequence of inputs none of which unsettles the state it
/// arrives at, phase and status are in their map.
pub proof fn phase_map_law(state: StateView, inputs: Seq<(Input, u64)>)
    requires
        state.in_phase_map(),
        state.settles_all(inputs),
    ensures
        state.run(inputs).in_phase_map(),
    decreases inputs.len(),
{
    if inputs.len() > 0 {
        phase_map_law(state, inputs.drop_last());
        phase_map_is_preserved(
            state.run(inputs.drop_last()),
            inputs.last().0,
            inputs.last().1,
        );
    }
}

/// After any sequence of inputs none of which interrupts a recording the
/// session is well formed, its phase and status are coupled, and the input
/// device is open exactly while it records: no two recordings overlap.
pub proof fn session_laws(state: StateView, inputs: Seq<(Input, u64)>)
    requires
        state.wf(),
        state.coupled(),
        state.exclusive(),
        state.admits_all(inputs),
    ensures
        state.run(inputs).wf(),
        state.run(inputs).coupled(),
        state.run(inputs).exclusive(),
    decreases inputs.len(),
{
    if inputs.len() > 0 {
        session_laws(state, inputs.drop_last());
        let before = state.run(inputs.drop_last());
        validity_is_preserved(before, inputs.last().0, inputs.last().1);
        coupling_is_preserved(before, inputs.last().0, inputs.last().1);
        exclusion_is_preserved(before, inputs.last().0, inputs.last().1);
    }
}

/// A new session satisfies the laws that `session_laws` and
/// `phase_map_law` carry on.
pub proof fn initial_state_is_lawful(
    config: crate::config::ConfigView,
    stats: crate::stats::StatsView,
)
    ensures
        StateView::initial(config, stats).wf(),
        StateView::initial(config, stats).coupled(),
        StateView::initial(config, stats).exclusive(),
        StateView::initial(config, stats).in_phase_map(),
{
}

/// A transcript always goes to refinement, and whatever comes of the
/// refinement a prompt is delivered: the refined text, or the transcript
/// itself where the refinement failed.
pub proof fn refinement_always_delivers(
    state: StateView,
    transcript: Seq<char>,
    outcome: Result<Seq<char>, Seq<char>>,
    now: u64,
)
    ensures
        state.on_event(EventView::TranscriptionComplete(transcript), now).commands.last()
            == (CommandView::Refine { api_key: state.config.gemini_api_key, transcript }),
        outcome is Err ==> delivered_text(transcript, outcome) == transcript,
        outcome is Ok ==> delivered_text(transcript, outcome) == outcome->Ok_0,
        state.on_event(
            EventView::RefinementComplete(delivered_text(transcript, outcome)),
            now,
        ).commands == seq![CommandView::DeliverPrompt(delivered_text(transcript, outcome))],
{
}

/// A recording that is stopped while no model is loaded dispatches
/// nothing: the overlay is dismissed, the session is idle and says that no
/// model is loaded.
pub proof fn missing_model_returns_to_idle(state: StateView, samples: nat)
    requires
        samples > 0,
        !(state.model is Ready),
    ensures
        ({
            let ended = state.audio_captured(samples);
            &&& ended == state.dispatch_transcription()
            &&& ended.state.status is Idle
            &&& ended.state.overlay_phase is None
            &&& !ended.state.dismiss_armed
            &&& ended.commands == crate::orchestrator::transitions::cancel_if(state.dismiss_armed)
                + seq![
                CommandView::HideOverlay,
                CommandView::SetStatusText("Whisper model not loaded"@),
            ]
            &&& !ended.commands.contains(CommandView::Transcribe)
        }),
{
}

/// A refined prompt is copied once and then counted. The event asks for
/// the clipboard with the very text and changes nothing. Once the text is
/// copied, no further copy is asked for; the statistics count one prompt
/// and its words more and file it at the end of the history, and are
/// saved first; the overlay shows the prompt as done, the session is idle
/// and the dismiss timer armed last. When the timer runs out, the overlay
/// is hidden and the session stays idle.
pub proof fn prompt_delivery_law(state: StateView, text: Seq<char>, timestamp: Seq<char>, now: u64)
    requires
        state.stats.can_record(text),
    ensures
        ({
            let asked = state.on_event(EventView::RefinementComplete(text), now);
            let done = asked.state.prompt_ready(text, Ok(()), timestamp);
            let hidden = done.state.dismiss_timer_elapsed();
            &&& asked.state == state
            &&& asked.commands == seq![CommandView::DeliverPrompt(text)]
            &&& forall|i: int|
                0 <= i < done.commands.len() ==> !((#[trigger] done.commands[i]) is DeliverPrompt)
                    && !(done.commands[i] is CopyToClipboard)
            &&& done.state.stats.total_prompts == state.stats.total_prompts + 1
            &&& done.state.stats.total_words == state.stats.total_words + word_count(text)
            &&& done.state.stats.history == state.stats.history.push(
                PromptRecordView { text, word_count: word_count(text) as usize, timestamp },
            )
            &&& done.commands[0] == CommandView::SaveStats
            &&& done.commands.last() == CommandView::ArmDismissTimer
            &&& done.state.overlay_phase == Some(PhaseView::Done(text))
            &&& done.state.status is Idle
            &&& done.state.dismiss_armed
            &&& hidden.commands == seq![CommandView::HideOverlay]
            &&& hidden.state.overlay_phase is None
            &&& hidden.state.status is Idle
            &&& !hidden.state.dismiss_armed
        }),
{
}

/// A recording that is stopped with no sample in the buffer ends idle,
/// with no overlay and the remark that nothing was captured; nothing is
/// sent to transcription.
pub proof fn empty_capture_returns_to_idle(state: StateView)
    requires
        state.status is Recording,
    ensures
        ({
            let stopped = state.stop_recording();
            let ended = stopped.state.audio_captured(0);
            &&& ended.state.status is Idle
            &&& ended.state.overlay_phase is None
            &&& ended.commands == seq![
                CommandView::HideOverlay,
                CommandView::SetStatusText("No audio captured"@),
            ]
            &&& !stopped.commands.contains(CommandView::Transcribe)
            &&& !ended.commands.contains(CommandView::Transcribe)
        }),
{
}

/// One more level after the newest of a sequence gives the newest of the
/// longer sequence.
proof fn lemma_newest_push(levels: Seq<u32>, level: u32)
    ensures
        pushed_level(newest(levels), level) =~= newest(levels.push(level)),
{
    let kept = newest(levels);
    if levels.len() > LEVEL_SLOTS {
        assert(kept.len() == LEVEL_SLOTS);
    } else if levels.len() == LEVEL_SLOTS {
        assert(kept.len() == LEVEL_SLOTS);
    } else {
    }
}

/// The level history is the newest `LEVEL_SLOTS` of all the levels that
/// it had and that arrived since, oldest first.
pub proof fn level_history_keeps_newest(state: StateView, levels: Seq<u32>)
    requires
        state.wf(),
    ensures
        state.after_levels(levels).levels == newest(state.levels + levels),
        state.after_levels(levels).wf(),
    decreases levels.len(),
{
    if levels.len() == 0 {
        assert(state.levels + levels =~= state.levels);
    } else {
        let earlier = levels.drop_last();
        level_history_keeps_newest(state, earlier);
        lemma_newest_push(state.levels + earlier, levels.last());
        assert((state.levels + earlier).push(levels.last()) =~= state.levels + levels);
    }
}

/// Once `LEVEL_SLOTS` levels or more have arrived, the history holds
/// exactly the `LEVEL_SLOTS` that arrived last, in their order.
pub proof fn level_history_is_bounded(state: StateView, levels: Seq<u32>)
    requires
        state.wf(),
        levels.len() >= LEVEL_SLOTS,
    ensures
        state.after_levels(levels).levels.len() == LEVEL_SLOTS,
        state.after_levels(levels).levels == levels.subrange(
            levels.len() - LEVEL_SLOTS,
            levels.len() as int,
        ),
{
    level_history_keeps_newest(state, levels);
    let all = state.levels + levels;
    assert(newest(all) =~= levels.subrange(levels.len() - LEVEL_SLOTS, levels.len() as int));
}

/// A recording that starts while the dismiss timer of a finished prompt
/// is armed cancels the timer first. From then on the session does not
/// react to the timer: should it still run out, nothing is dismissed.
pub proof fn new_recording_cancels_dismiss(
    state: StateView,
    text: Seq<char>,
    timestamp: Seq<char>,
    answer: Result<u32, Seq<char>>,
    now: u64,
)
    requires
        state.wf(),
    ensures
        ({
            let done = state.prompt_ready(text, Ok(()), timestamp);
            let begun = done.state.on_event(EventView::HotkeyTriggered, now);
            let running = begun.state.capture_started(answer, now);
            &&& done.state.dismiss_armed
            &&& done.commands.last() == CommandView::ArmDismissTimer
            &&& begun.commands[0] == CommandView::CancelDismissTimer
            &&& !begun.state.dismiss_armed
            &&& begun.state.dismiss_timer_elapsed() == begun.state.unchanged()
            &&& !running.state.dismiss_armed
            &&& running.state.dismiss_timer_elapsed() == running.state.unchanged()
        }),
{
}

} // verus!
