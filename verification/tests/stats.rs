use std::path::PathBuf;
use voice_prompt::config::{Config, HotkeyConfig};
use voice_prompt::stats::{PromptRecord, Stats};
use voice_prompt::transcriber::{join_segments, model_exists, model_path, model_path_under, models_dir, models_dir_under, worker_threads};

#[test]
fn default_hotkey_is_control_space() {
    let hotkey = HotkeyConfig::default();
    assert_eq!(hotkey.modifiers, vec![29]);
    assert_eq!(hotkey.trigger, 57);
    assert_eq!(hotkey.display_name, "Ctrl+Space");
}

#[test]
fn default_config_has_no_credential() {
    let config = Config::default();
    assert_eq!(config.hotkey, HotkeyConfig::default());
    assert_eq!(config.gemini_api_key, "");
}

#[test]
fn stored_settings_win_over_the_defaults() {
    let stored = Config {
        hotkey: HotkeyConfig { modifiers: vec![56], trigger: 30, display_name: "Alt+A".to_string() },
        gemini_api_key: "k".to_string(),
    };
    assert_eq!(Config::loaded_or_default(Some(stored.clone())), stored);
    assert_eq!(Config::loaded_or_default(None), Config::default());
}

#[test]
fn stored_statistics_win_over_empty_ones() {
    let stored = Stats { total_words: 7, total_prompts: 2, history: vec![] };
    assert_eq!(Stats::loaded_or_default(Some(stored.clone())), stored);
    assert_eq!(Stats::loaded_or_default(None), Stats::default());
}

#[test]
fn clones_hold_the_same_values() {
    let config = Config {
        hotkey: HotkeyConfig { modifiers: vec![29, 42], trigger: 30, display_name: "Ctrl+Shift+A".to_string() },
        gemini_api_key: "key".to_string(),
    };
    assert_eq!(config.clone(), config);
    let mut stats = Stats::default();
    stats.record_prompt_at("one two", "2026-01-01 00:00:00".to_string());
    stats.record_prompt_at("three", "2026-01-01 00:00:01".to_string());
    assert_eq!(stats.clone(), stats);
}

#[test]
fn settings_file_lies_in_the_application_directory() {
    let base = PathBuf::from("/home/alice/.config");
    assert_eq!(
        Config::path_under(Some(base)),
        PathBuf::from("/home/alice/.config/voice-prompt/config.json")
    );
    assert_eq!(Config::path_under(None), PathBuf::from("./voice-prompt/config.json"));
    assert!(Config::path().ends_with("voice-prompt/config.json"));
    assert!(Config::dir().ends_with("voice-prompt"));
    assert_eq!(Config::path(), Config::dir().join("config.json"));
}

#[test]
fn statistics_file_lies_in_the_application_directory() {
    let base = PathBuf::from("/home/alice/.local/share");
    assert_eq!(
        Stats::path_under(Some(base)),
        PathBuf::from("/home/alice/.local/share/voice-prompt/stats.json")
    );
    assert_eq!(Stats::path_under(None), PathBuf::from("./voice-prompt/stats.json"));
    assert!(Stats::path().ends_with("voice-prompt/stats.json"));
    assert_eq!(Stats::path(), Stats::dir().join("stats.json"));
}

#[test]
fn model_file_lies_in_the_models_directory() {
    let base = PathBuf::from("/data");
    assert_eq!(models_dir_under(Some(base.clone())), PathBuf::from("/data/voice-prompt/models"));
    assert_eq!(
        model_path_under(Some(base)),
        PathBuf::from("/data/voice-prompt/models/ggml-base.en.bin")
    );
    assert_eq!(model_path_under(None), PathBuf::from("./voice-prompt/models/ggml-base.en.bin"));
    assert_eq!(model_path(), models_dir().join("ggml-base.en.bin"));
    assert!(models_dir().ends_with("voice-prompt/models"));
}

#[test]
fn model_exists_reports_what_is_on_disk() {
    assert_eq!(model_exists(), model_path().exists());
}

#[test]
fn new_statistics_are_empty() {
    let stats = Stats::default();
    assert_eq!(stats.total_words, 0);
    assert_eq!(stats.total_prompts, 0);
    assert!(stats.history.is_empty());
}

#[test]
fn recording_a_prompt_counts_it_and_files_it() {
    let mut stats = Stats::default();
    stats.record_prompt_at("fix the bug", "2026-03-04 05:06:07".to_string());
    assert_eq!(stats.total_prompts, 1);
    assert_eq!(stats.total_words, 3);
    assert_eq!(
        stats.history,
        vec![PromptRecord {
            text: "fix the bug".to_string(),
            word_count: 3,
            timestamp: "2026-03-04 05:06:07".to_string(),
        }]
    );
    stats.record_prompt_at("  add   tests ", "2026-03-04 05:07:00".to_string());
    assert_eq!(stats.total_prompts, 2);
    assert_eq!(stats.total_words, 5);
    assert_eq!(stats.history.len(), 2);
    assert_eq!(stats.history[1].text, "  add   tests ");
    assert_eq!(stats.history[1].word_count, 2);
}

#[test]
fn recording_now_stamps_the_local_date_and_time() {
    let mut stats = Stats { total_words: 10, total_prompts: 4, history: vec![] };
    assert!(stats.can_record("hello there"));
    stats.record_prompt("hello there");
    assert_eq!(stats.total_prompts, 5);
    assert_eq!(stats.total_words, 12);
    assert_eq!(stats.history.len(), 1);
    let stamp = stats.history[0].timestamp.clone();
    let bytes = stamp.as_bytes();
    assert_eq!(bytes.len(), 19, "stamp {:?}", stamp);
    for (i, b) in bytes.iter().enumerate() {
        match i {
            4 | 7 => assert_eq!(*b, b'-'),
            10 => assert_eq!(*b, b' '),
            13 | 16 => assert_eq!(*b, b':'),
            _ => assert!(b.is_ascii_digit(), "stamp {:?}", stamp),
        }
    }
}

#[test]
fn counters_at_their_limit_cannot_record() {
    let full = Stats { total_words: 0, total_prompts: usize::MAX, history: vec![] };
    assert!(!full.can_record("one"));
    let wordy = Stats { total_words: usize::MAX - 1, total_prompts: 0, history: vec![] };
    assert!(wordy.can_record("one"));
    assert!(!wordy.can_record("one two"));
    assert!(wordy.can_record(""));
}

#[test]
fn segments_are_spaced_and_trimmed() {
    let none: Vec<String> = vec![];
    assert_eq!(join_segments(&none), "");
    assert_eq!(join_segments(&vec![" fix the".to_string(), " bug.".to_string()]), "fix the  bug.");
    assert_eq!(join_segments(&vec!["hello".to_string()]), "hello");
    assert_eq!(join_segments(&vec!["  ".to_string(), "\n".to_string()]), "");
}

#[test]
fn worker_threads_follow_the_machine() {
    assert_eq!(worker_threads(Some(8)), 8);
    assert_eq!(worker_threads(Some(1)), 1);
    assert_eq!(worker_threads(None), 4);
}
