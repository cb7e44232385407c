use voice_prompt::audio_feedback::{beep_sample_count, BeepType, BEEP_MILLIS, BEEP_WAIT_MILLIS};
use voice_prompt::clipboard::{clipboard_tool, is_wayland, ClipboardTool};
use voice_prompt::hotkey::names::Platform;
use voice_prompt::orchestrator::state::OverlayPhase;
use voice_prompt::recorder::{find_target_config, frame_count, keeps_frame, plan_direct, plan_fallback, CapturePlan, InputConfigRange};
use voice_prompt::refiner::{api_error, plan_refinement, refined_text, RefinePlan, GEMINI_URL, MAX_OUTPUT_TOKENS};
use voice_prompt::transcriber::{MODEL_FILENAME, MODEL_URL};
use voice_prompt::ui::history::{preview, previewable, word_label, PREVIEW_BYTES};
use voice_prompt::ui::overlay::{set_overlay_phase, waveform_width, OverlayLayout, BAR_GAP, BAR_WIDTH, NUM_BARS, WAVEFORM_HEIGHT};

fn range(channels: u16, min: u32, max: u32, is_f32: bool) -> InputConfigRange {
    InputConfigRange { channels, min_sample_rate: min, max_sample_rate: max, is_f32 }
}

#[test]
fn cues_sweep_between_six_and_nine_hundred_hertz() {
    assert_eq!(BeepType::Start.sweep_hz(), (600, 900));
    assert_eq!(BeepType::Stop.sweep_hz(), (900, 600));
    assert_eq!(BEEP_MILLIS, 150);
    assert_eq!(BEEP_WAIT_MILLIS, 200);
    assert_eq!(beep_sample_count(48000), 7200);
    assert_eq!(beep_sample_count(44100), 6615);
    assert_eq!(beep_sample_count(0), 0);
    assert_eq!(beep_sample_count(u32::MAX), 644_245_094);
}

#[test]
fn the_first_mono_float_range_with_the_target_rate_is_chosen() {
    let configs = vec![
        range(2, 8000, 48000, true),
        range(1, 8000, 48000, false),
        range(1, 22050, 48000, true),
        range(1, 8000, 15999, true),
        range(1, 16000, 16000, true),
        range(1, 8000, 48000, true),
    ];
    assert_eq!(find_target_config(&configs), Some(4));
    assert_eq!(find_target_config(&configs[..4].to_vec()), None);
    assert_eq!(find_target_config(&vec![]), None);
    assert!(range(1, 16000, 16000, true).delivers_target());
    assert!(!range(1, 16001, 48000, true).delivers_target());
}

#[test]
fn faster_devices_are_thinned_by_a_whole_factor() {
    assert_eq!(plan_direct(), CapturePlan { sample_rate: 16000, downsample_factor: 1 });
    assert_eq!(plan_fallback(48000), CapturePlan { sample_rate: 16000, downsample_factor: 3 });
    assert_eq!(plan_fallback(44100), CapturePlan { sample_rate: 22050, downsample_factor: 2 });
    assert_eq!(plan_fallback(16000), CapturePlan { sample_rate: 16000, downsample_factor: 1 });
    assert_eq!(plan_fallback(31999), CapturePlan { sample_rate: 31999, downsample_factor: 1 });
    assert_eq!(plan_fallback(32000), CapturePlan { sample_rate: 16000, downsample_factor: 2 });
    assert_eq!(plan_fallback(8000), CapturePlan { sample_rate: 8000, downsample_factor: 1 });
    assert_eq!(plan_fallback(0), CapturePlan { sample_rate: 0, downsample_factor: 1 });
    assert_eq!(plan_fallback(96000), CapturePlan { sample_rate: 16000, downsample_factor: 6 });
}

#[test]
fn of_every_factor_frames_the_first_is_kept() {
    let kept: Vec<usize> = (0..10).filter(|i| keeps_frame(*i, 3)).collect();
    assert_eq!(kept, vec![0, 3, 6, 9]);
    assert!((0..10).all(|i| keeps_frame(i, 1)));
    assert_eq!(frame_count(0, 2), 0);
    assert_eq!(frame_count(8, 2), 4);
    assert_eq!(frame_count(9, 2), 5);
    assert_eq!(frame_count(5, 1), 5);
    assert_eq!(frame_count(usize::MAX, 2), usize::MAX / 2 + 1);
    for samples in 0..20usize {
        for channels in 1..5usize {
            let data = vec![0u8; samples];
            assert_eq!(frame_count(samples, channels), data.chunks(channels).count());
        }
    }
}

#[test]
fn without_a_credential_the_transcript_is_the_result() {
    assert_eq!(
        plan_refinement("", "  fix the bug "),
        RefinePlan::Unrefined("  fix the bug ".to_string())
    );
}

#[test]
fn with_a_credential_the_service_is_asked() {
    assert_eq!(
        plan_refinement("abc123", "fix the bug"),
        RefinePlan::Request {
            url: "https://generativelanguage.googleapis.com/v1beta/models/gemini-2.5-flash:generateContent?key=abc123".to_string()
        }
    );
    assert!(GEMINI_URL.ends_with(":generateContent"));
    assert_eq!(MAX_OUTPUT_TOKENS, 2048);
}

#[test]
fn the_first_candidate_gives_the_refined_text() {
    let answer = Some(vec![
        vec!["  Fix the ".to_string(), "bug.\n".to_string()],
        vec!["other".to_string()],
    ]);
    assert_eq!(refined_text(&answer, "raw"), "Fix the bug.");
    assert_eq!(refined_text(&Some(vec![vec![]]), "raw"), "");
    assert_eq!(refined_text(&Some(vec![]), " raw text "), "raw text");
    assert_eq!(refined_text(&None, " raw text\n"), "raw text");
}

#[test]
fn an_unsuccessful_answer_is_an_error_with_status_and_text() {
    assert_eq!(
        api_error("403 Forbidden", "{\"error\": 1}"),
        "Gemini API error 403 Forbidden: {\"error\": 1}"
    );
    assert_eq!(api_error("500", ""), "Gemini API error 500: ");
}

#[test]
fn the_clipboard_tool_follows_platform_and_session() {
    assert_eq!(clipboard_tool(Platform::MacOs, ""), ClipboardTool::Pbcopy);
    assert_eq!(clipboard_tool(Platform::MacOs, "wayland"), ClipboardTool::Pbcopy);
    assert_eq!(clipboard_tool(Platform::Linux, "wayland"), ClipboardTool::WlCopy);
    assert_eq!(clipboard_tool(Platform::Linux, "x11"), ClipboardTool::Xclip);
    assert_eq!(clipboard_tool(Platform::Linux, ""), ClipboardTool::Xclip);
    assert_eq!(clipboard_tool(Platform::Linux, "Wayland"), ClipboardTool::Xclip);
    assert!(is_wayland("wayland"));
    assert!(!is_wayland("tty"));
    assert_eq!(ClipboardTool::Pbcopy.program(), "pbcopy");
    assert_eq!(ClipboardTool::WlCopy.program(), "wl-copy");
    assert_eq!(ClipboardTool::Xclip.program(), "xclip");
    assert_eq!(ClipboardTool::Xclip.arguments(), vec!["-selection", "clipboard"]);
    assert!(ClipboardTool::WlCopy.arguments().is_empty());
    assert!(ClipboardTool::Pbcopy.arguments().is_empty());
    assert_eq!(
        ClipboardTool::Xclip.spawn_error("No such file or directory"),
        "Failed to spawn xclip: No such file or directory"
    );
    assert_eq!(
        ClipboardTool::WlCopy.exit_error("exit status: 1"),
        "wl-copy exited with status exit status: 1"
    );
}

#[test]
fn each_phase_has_its_layout() {
    assert_eq!(
        set_overlay_phase(&OverlayPhase::Recording),
        OverlayLayout { recording_row: true, status_text: None, done_style: false }
    );
    assert_eq!(
        set_overlay_phase(&OverlayPhase::Transcribing),
        OverlayLayout {
            recording_row: false,
            status_text: Some("Transcribing\u{2026}".to_string()),
            done_style: false,
        }
    );
    assert_eq!(
        set_overlay_phase(&OverlayPhase::Refining),
        OverlayLayout {
            recording_row: false,
            status_text: Some("Refining\u{2026}".to_string()),
            done_style: false,
        }
    );
    assert_eq!(
        set_overlay_phase(&OverlayPhase::Done("x".to_string())),
        OverlayLayout {
            recording_row: false,
            status_text: Some("Done \u{2713}".to_string()),
            done_style: true,
        }
    );
    assert_eq!(NUM_BARS, 24);
    assert_eq!(BAR_WIDTH, 3);
    assert_eq!(BAR_GAP, 2);
    assert_eq!(WAVEFORM_HEIGHT, 28);
    assert_eq!(waveform_width(), 120);
}

#[test]
fn long_prompts_are_shortened_to_a_hundred_bytes() {
    assert_eq!(PREVIEW_BYTES, 100);
    assert_eq!(preview("short"), "short");
    let exact = "a".repeat(100);
    assert_eq!(preview(&exact), exact);
    let long = "b".repeat(101);
    assert!(previewable(&long));
    assert_eq!(preview(&long), format!("{}...", "b".repeat(100)));
    let accents = format!("{}{}", "\u{e9}".repeat(50), "tail");
    assert!(previewable(&accents));
    assert_eq!(preview(&accents), format!("{}...", "\u{e9}".repeat(50)));
    let split = format!("a{}", "\u{e9}".repeat(60));
    assert!(!previewable(&split));
    assert!(previewable("\u{e9}"));
}

#[test]
fn word_labels_count_in_decimal() {
    assert_eq!(word_label(0), "0 words");
    assert_eq!(word_label(1), "1 words");
    assert_eq!(word_label(1234), "1234 words");
}

#[test]
fn the_model_comes_from_the_base_english_file() {
    assert_eq!(MODEL_FILENAME, "ggml-base.en.bin");
    assert!(MODEL_URL.ends_with("/ggml-base.en.bin"));
    assert!(MODEL_URL.starts_with("https://"));
}
