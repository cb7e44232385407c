//! The overlay bar: what it shows in each phase.
use crate::orchestrator::state::{OverlayPhase, PhaseView, LEVEL_SLOTS};
use vstd::prelude::*;
use vstd::string::*;

verus! {

/// The number of bars of the waveform.
pub const NUM_BARS: usize = LEVEL_SLOTS;

/// The width of a bar of the waveform, in pixels.
pub const BAR_WIDTH: usize = 3;

/// The gap between two bars, in pixels.
pub const BAR_GAP: usize = 2;

/// The height of the waveform, in pixels.
pub const WAVEFORM_HEIGHT: i32 = 28;

/// The width that the waveform asks for: each bar with its gap.
pub fn waveform_width() -> (width: i32)
    ensures
        width == (BAR_WIDTH + BAR_GAP) * NUM_BARS,
{
    ((BAR_WIDTH + BAR_GAP) * NUM_BARS) as i32
}

/// Which parts of the overlay are visible, and what the status label says.
#[derive(Debug, PartialEq, Eq)]
pub struct OverlayLayout {
    /// The red dot, the word "Recording", the waveform and the timer.
    pub recording_row: bool,
    /// The text of the status label where it is visible.
    pub status_text: Option<String>,
    /// The bar is drawn in the colour of a finished prompt.
    pub done_style: bool,
}

/// What an `OverlayLayout` holds.
pub struct OverlayLayoutView {
    pub recording_row: bool,
    pub status_text: Option<Seq<char>>,
    pub done_style: bool,
}

impl View for OverlayLayout {
    type V = OverlayLayoutView;

    open spec fn view(&self) -> OverlayLayoutView {
        OverlayLayoutView {
            recording_row: self.recording_row,
            status_text: match self.status_text {
                Some(t) => Some(t@),
                None => None,
            },
            done_style: self.done_style,
        }
    }
}

/// The layout of a phase: while recording the recording row alone; in
/// every later phase the status label alone, in the colour of a finished
/// prompt once the prompt is done.
pub open spec fn layout_of(phase: PhaseView) -> OverlayLayoutView {
    match phase {
        PhaseView::Recording => OverlayLayoutView {
            recording_row: true,
            status_text: None,
            done_style: false,
        },
        PhaseView::Transcribing => OverlayLayoutView {
            recording_row: false,
            status_text: Some("Transcribing\u{2026}"@),
            done_style: false,
        },
        PhaseView::Refining => OverlayLayoutView {
            recording_row: false,
            status_text: Some("Refining\u{2026}"@),
            done_style: false,
        },
        PhaseView::Done(_) => OverlayLayoutView {
            recording_row: false,
            status_text: Some("Done \u{2713}"@),
            done_style: true,
        },
    }
}

/// The layout of the overlay in `phase`.
pub fn set_overlay_phase(phase: &OverlayPhase) -> (layout: OverlayLayout)
    ensures
        layout@ == layout_of(phase@),
{
    match phase {
        OverlayPhase::Recording => OverlayLayout {
            recording_row: true,
            status_text: None,
            done_style: false,
        },
        OverlayPhase::Transcribing => OverlayLayout {
            recording_row: false,
            status_text: Some(String::from_str("Transcribing\u{2026}")),
            done_style: false,
        },
        OverlayPhase::Refining => OverlayLayout {
            recording_row: false,
            status_text: Some(String::from_str("Refining\u{2026}")),
            done_style: false,
        },
        OverlayPhase::Done(_) => OverlayLayout {
            recording_row: false,
            status_text: Some(String::from_str("Done \u{2713}")),
            done_style: true,
        },
    }
}

} // verus!
