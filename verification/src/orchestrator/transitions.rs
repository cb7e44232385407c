//! The transitions of the session, as functions from a state and an input
//! to the next state and the commands issued.
use crate::audio_feedback::BeepType;
use crate::config::{ConfigView, HotkeyConfigView};
use crate::orchestrator::state::{AppStatus, CommandView, EventView, ModelStage, PhaseView, StateView, LEVEL_SLOTS};
use crate::text::two_digits;
use vstd::prelude::*;

verus! {

/// The next state and the commands to carry out, in order.
pub struct Reaction {
    pub state: StateView,
    pub commands: Seq<CommandView>,
}

/// The level history after one more level: the oldest goes once all slots
/// are taken.
pub open spec fn pushed_level(levels: Seq<u32>, level: u32) -> Seq<u32> {
    if levels.len() >= LEVEL_SLOTS {
        levels.drop_first().push(level)
    } else {
        levels.push(level)
    }
}

/// The whole seconds from `start` to `now`, both in milliseconds.
pub open spec fn elapsed_secs(start: u64, now: u64) -> nat {
    if now >= start {
        ((now - start) / 1000) as nat
    } else {
        0
    }
}

/// Seconds as minutes and seconds, two digits each at least: `01:05`.
pub open spec fn clock_text(secs: nat) -> Seq<char> {
    two_digits(secs / 60) + seq![':'] + two_digits(secs % 60)
}

/// The one command that cancels the dismiss timer, where it is armed.
pub open spec fn cancel_if(armed: bool) -> Seq<CommandView> {
    if armed {
        seq![CommandView::CancelDismissTimer]
    } else {
        Seq::empty()
    }
}

impl StateView {
    /// Nothing changes and nothing is to be done.
    pub open spec fn unchanged(self) -> Reaction {
        Reaction { state: self, commands: Seq::empty() }
    }

    /// The overlay is dismissed: no phase, the dismiss timer cancelled where
    /// it was armed, the overlay hidden.
    pub open spec fn dismissed(self) -> Reaction {
        Reaction {
            state: StateView { overlay_phase: None, dismiss_armed: false, ..self },
            commands: cancel_if(self.dismiss_armed) + seq![CommandView::HideOverlay],
        }
    }

    /// The status changes and the status line shows `text`.
    pub open spec fn status_updated(self, status: AppStatus, text: Seq<char>) -> Reaction {
        Reaction {
            state: StateView { status, ..self },
            commands: seq![CommandView::SetStatusText(text)],
        }
    }

    /// A recording is about to start: a pending dismiss is cancelled, the
    /// sample buffer emptied, the cue played and the input device asked for.
    pub open spec fn start_recording(self) -> Reaction {
        Reaction {
            state: StateView { dismiss_armed: false, ..self },
            commands: cancel_if(self.dismiss_armed) + seq![
                CommandView::ClearAudioBuffer,
                CommandView::PlayCue(BeepType::Start),
                CommandView::OpenCapture,
            ],
        }
    }

    /// The input device answered. Open at `rate` hertz: the session records
    /// from `now` on. Failed: the session stays idle and reports the error.
    pub open spec fn capture_started(self, outcome: Result<u32, Seq<char>>, now: u64) -> Reaction {
        match outcome {
            Ok(rate) => Reaction {
                state: StateView {
                    capture_active: true,
                    tick_active: true,
                    sample_rate: rate,
                    recording_start: Some(now),
                    status: AppStatus::Recording,
                    overlay_phase: Some(PhaseView::Recording),
                    ..self
                },
                commands: seq![
                    CommandView::SetTimerText("00:00"@),
                    CommandView::ShowPhase(PhaseView::Recording),
                    CommandView::ShowOverlay,
                    CommandView::SetStatusText("Recording..."@),
                    CommandView::StartTicker,
                ],
            },
            Err(e) => self.status_updated(AppStatus::Idle, "Mic error: "@ + e),
        }
    }

    /// The tick and the capture end where they run.
    pub open spec fn release_commands(self) -> Seq<CommandView> {
        (if self.tick_active {
            seq![CommandView::StopTicker]
        } else {
            Seq::empty()
        }) + (if self.capture_active {
            seq![CommandView::CloseCapture]
        } else {
            Seq::empty()
        })
    }

    /// A recording stops: tick and capture end, the cue plays, the session
    /// goes on to transcribing and asks for a copy of the samples.
    pub open spec fn stop_recording(self) -> Reaction {
        Reaction {
            state: StateView {
                tick_active: false,
                capture_active: false,
                recording_start: None,
                overlay_phase: Some(PhaseView::Transcribing),
                status: AppStatus::Processing,
                ..self
            },
            commands: self.release_commands() + seq![
                CommandView::PlayCue(BeepType::Stop),
                CommandView::ShowPhase(PhaseView::Transcribing),
                CommandView::SetStatusText("Transcribing..."@),
                CommandView::SnapshotAudio,
            ],
        }
    }

    /// The samples go to transcription where a model is loaded. Without
    /// one nothing is dispatched: the overlay is dismissed, the session is
    /// idle again and says that no model is loaded.
    pub open spec fn dispatch_transcription(self) -> Reaction {
        if self.model is Ready {
            Reaction { state: self, commands: seq![CommandView::Transcribe] }
        } else {
            let gone = self.dismissed();
            Reaction {
                state: StateView { status: AppStatus::Idle, ..gone.state },
                commands: gone.commands + seq![
                    CommandView::SetStatusText("Whisper model not loaded"@),
                ],
            }
        }
    }

    /// The copy of the sample buffer holds `samples` samples. None: the
    /// overlay goes, the session is idle and says that nothing was captured.
    /// Some: they go to transcription, which needs a loaded model.
    pub open spec fn audio_captured(self, samples: nat) -> Reaction {
        if samples == 0 {
            Reaction {
                state: StateView { overlay_phase: None, status: AppStatus::Idle, ..self },
                commands: seq![
                    CommandView::HideOverlay,
                    CommandView::SetStatusText("No audio captured"@),
                ],
            }
        } else {
            self.dispatch_transcription()
        }
    }

    /// The command that sends a transcript to refinement, with the
    /// configured credential.
    pub open spec fn dispatch_refinement(self, transcript: Seq<char>) -> CommandView {
        CommandView::Refine { api_key: self.config.gemini_api_key, transcript }
    }

    /// The clipboard answered for the prompt `text`. Copied: the prompt is
    /// counted, the overlay shows it as done, the session is idle and the
    /// dismiss timer armed. Failed: the overlay is dismissed and the error
    /// reported; the cycle ends there.
    pub open spec fn prompt_ready(
        self,
        text: Seq<char>,
        copied: Result<(), Seq<char>>,
        timestamp: Seq<char>,
    ) -> Reaction {
        match copied {
            Ok(_) => {
                let stats = self.stats.recorded(text, timestamp);
                Reaction {
                    state: StateView {
                        stats,
                        overlay_phase: Some(PhaseView::Done(text)),
                        status: AppStatus::Idle,
                        dismiss_armed: true,
                        ..self
                    },
                    commands: seq![
                        CommandView::SaveStats,
                        CommandView::SetCounters {
                            words: stats.total_words,
                            prompts: stats.total_prompts,
                        },
                        CommandView::ShowPhase(PhaseView::Done(text)),
                        CommandView::SetStatusText("Idle \u{2014} Prompt copied!"@),
                        CommandView::ArmDismissTimer,
                    ],
                }
            },
            Err(e) => {
                let gone = self.dismissed();
                Reaction {
                    state: StateView { status: AppStatus::Idle, ..gone.state },
                    commands: gone.commands + seq![
                        CommandView::SetStatusText("Clipboard error: "@ + e),
                    ],
                }
            },
        }
    }

    /// The dismiss timer ran out. Armed: the overlay is dismissed. Not
    /// armed, because it was cancelled in the meantime: nothing happens.
    pub open spec fn dismiss_timer_elapsed(self) -> Reaction {
        if self.dismiss_armed {
            (StateView { dismiss_armed: false, ..self }).dismissed()
        } else {
            self.unchanged()
        }
    }

    /// The model starts to load; the status stays.
    pub open spec fn model_load_begun(self) -> Reaction {
        Reaction {
            state: StateView { model: ModelStage::Loading, ..self },
            commands: seq![
                CommandView::SetStatusText("Loading model..."@),
                CommandView::LoadModel,
            ],
        }
    }

    /// The model starts to load and the session is busy until it has.
    pub open spec fn load_model(self) -> Reaction {
        (StateView { status: AppStatus::Processing, ..self }).model_load_begun()
    }

    /// The model is loaded: the pipeline can use it and the session is idle.
    pub open spec fn model_loaded(self) -> Reaction {
        Reaction {
            state: StateView { model: ModelStage::Ready, status: AppStatus::Idle, ..self },
            commands: seq![CommandView::SetStatusText("Idle"@)],
        }
    }

    /// The model is made ready: loaded where its file exists, else
    /// downloaded first.
    pub open spec fn ensure_model(self, exists: bool) -> Reaction {
        if exists {
            self.load_model()
        } else {
            Reaction {
                state: StateView {
                    status: AppStatus::ModelDownloading,
                    model: ModelStage::Downloading,
                    ..self
                },
                commands: seq![
                    CommandView::SetStatusText("Downloading model..."@),
                    CommandView::DownloadModel,
                ],
            }
        }
    }

    /// The trigger fired: an idle session starts to record, a recording
    /// one stops, a busy one ignores it.
    pub open spec fn hotkey_triggered(self) -> Reaction {
        match self.status {
            AppStatus::Idle => self.start_recording(),
            AppStatus::Recording => self.stop_recording(),
            _ => self.unchanged(),
        }
    }

    /// A transcript arrived: the overlay shows refining, the session is
    /// busy and the transcript goes to refinement.
    pub open spec fn transcription_complete(self, transcript: Seq<char>) -> Reaction {
        Reaction {
            state: StateView {
                overlay_phase: Some(PhaseView::Refining),
                status: AppStatus::Processing,
                ..self
            },
            commands: seq![
                CommandView::ShowPhase(PhaseView::Refining),
                CommandView::SetStatusText("Refining with Gemini..."@),
                self.dispatch_refinement(transcript),
            ],
        }
    }

    /// Background work failed: the overlay is dismissed, the session is
    /// idle and shows the error. A model on its way is missing again.
    pub open spec fn processing_error(self, message: Seq<char>) -> Reaction {
        let gone = self.dismissed();
        Reaction {
            state: StateView {
                status: AppStatus::Idle,
                model: if self.model is Ready {
                    ModelStage::Ready
                } else {
                    ModelStage::Missing
                },
                ..gone.state
            },
            commands: gone.commands + seq![CommandView::SetStatusText("Error: "@ + message)],
        }
    }

    /// The overlay was clicked: a finished prompt is copied once more, then
    /// the overlay is dismissed.
    pub open spec fn overlay_clicked(self) -> Reaction {
        let gone = self.dismissed();
        match self.overlay_phase {
            Some(PhaseView::Done(text)) => Reaction {
                state: gone.state,
                commands: seq![CommandView::CopyToClipboard(text)] + gone.commands,
            },
            _ => gone,
        }
    }

    /// The reaction to an event that arrives at `now`, in milliseconds.
    pub open spec fn on_event(self, event: EventView, now: u64) -> Reaction {
        match event {
            EventView::HotkeyTriggered => self.hotkey_triggered(),
            EventView::TranscriptionComplete(t) => self.transcription_complete(t),
            EventView::RefinementComplete(t) => Reaction {
                state: self,
                commands: seq![CommandView::DeliverPrompt(t)],
            },
            EventView::ProcessingError(e) => self.processing_error(e),
            EventView::ModelDownloadProgress(downloaded, total) => Reaction {
                state: self,
                commands: seq![
                    if total > 0 {
                        CommandView::ShowProgress { downloaded, total }
                    } else {
                        CommandView::PulseProgress
                    },
                ],
            },
            EventView::ModelDownloadComplete => {
                let begun = self.model_load_begun();
                Reaction {
                    state: begun.state,
                    commands: seq![CommandView::HideProgress] + begun.commands,
                }
            },
            EventView::TimerTick => match self.recording_start {
                Some(start) => Reaction {
                    state: self,
                    commands: seq![CommandView::SetTimerText(clock_text(elapsed_secs(start, now)))],
                },
                None => self.unchanged(),
            },
            EventView::AudioLevel(level) => Reaction {
                state: StateView { levels: pushed_level(self.levels, level), ..self },
                commands: seq![CommandView::RedrawWaveform],
            },
            EventView::OverlayClicked => self.overlay_clicked(),
        }
    }

    /// A new combination was chosen: it is kept, handed to the listener,
    /// saved and shown.
    pub open spec fn hotkey_changed(self, hotkey: HotkeyConfigView) -> Reaction {
        Reaction {
            state: StateView { config: ConfigView { hotkey, ..self.config }, ..self },
            commands: seq![
                CommandView::PublishHotkey(hotkey),
                CommandView::SaveConfig,
                CommandView::SetHotkeyLabel(hotkey.display_name),
            ],
        }
    }

    /// A new credential was entered: it is kept and saved.
    pub open spec fn api_key_changed(self, key: Seq<char>) -> Reaction {
        Reaction {
            state: StateView {
                config: ConfigView { gemini_api_key: key, ..self.config },
                ..self
            },
            commands: seq![CommandView::SaveConfig],
        }
    }
}

} // verus!
