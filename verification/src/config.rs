//! The settings that outlive a run: the trigger combination and the
//! credential for the refinement service.
use crate::paths::{app_dir_text, app_dir_under, opt_path_text, path_push, path_pushed, path_text, user_config_dir};
use vstd::prelude::*;
use vstd::string::*;

verus! {

/// Key codes of the trigger combination.
#[derive(Debug, PartialEq, Eq)]
pub struct HotkeyConfig {
    /// Codes of the modifier keys that must be held (29 is the left control key).
    pub modifiers: Vec<u16>,
    /// Code of the key that fires the trigger (57 is the space bar).
    pub trigger: u16,
    /// The combination as shown to the user, such as "Ctrl+Space".
    pub display_name: String,
}

/// What a `HotkeyConfig` holds.
pub struct HotkeyConfigView {
    pub modifiers: Seq<u16>,
    pub trigger: u16,
    pub display_name: Seq<char>,
}

impl View for HotkeyConfig {
    type V = HotkeyConfigView;

    open spec fn view(&self) -> HotkeyConfigView {
        HotkeyConfigView {
            modifiers: self.modifiers@,
            trigger: self.trigger,
            display_name: self.display_name@,
        }
    }
}

impl HotkeyConfigView {
    /// Left control and space, shown as "Ctrl+Space".
    pub open spec fn initial() -> HotkeyConfigView {
        HotkeyConfigView { modifiers: seq![29u16], trigger: 57u16, display_name: "Ctrl+Space"@ }
    }
}

impl Clone for HotkeyConfig {
    fn clone(&self) -> (copy: Self)
        ensures
            copy@ == self@,
    {
        let modifiers = self.modifiers.clone();
        HotkeyConfig {
            modifiers,
            trigger: self.trigger,
            display_name: self.display_name.clone(),
        }
    }
}

impl Default for HotkeyConfig {
    fn default() -> (hotkey: Self)
        ensures
            hotkey@ == HotkeyConfigView::initial(),
    {
        let mut modifiers: Vec<u16> = Vec::new();
        modifiers.push(29);
        HotkeyConfig { modifiers, trigger: 57, display_name: String::from_str("Ctrl+Space") }
    }
}

/// Top-level application settings.
#[derive(Debug, PartialEq, Eq)]
pub struct Config {
    pub hotkey: HotkeyConfig,
    pub gemini_api_key: String,
}

/// What a `Config` holds.
pub struct ConfigView {
    pub hotkey: HotkeyConfigView,
    pub gemini_api_key: Seq<char>,
}

impl View for Config {
    type V = ConfigView;

    open spec fn view(&self) -> ConfigView {
        ConfigView { hotkey: self.hotkey@, gemini_api_key: self.gemini_api_key@ }
    }
}

impl ConfigView {
    /// The default trigger and no credential.
    pub open spec fn initial() -> ConfigView {
        ConfigView { hotkey: HotkeyConfigView::initial(), gemini_api_key: Seq::<char>::empty() }
    }
}

impl Clone for Config {
    fn clone(&self) -> (copy: Self)
        ensures
            copy@ == self@,
    {
        Config { hotkey: self.hotkey.clone(), gemini_api_key: self.gemini_api_key.clone() }
    }
}

impl Default for Config {
    fn default() -> (config: Self)
        ensures
            config@ == ConfigView::initial(),
    {
        Config { hotkey: HotkeyConfig::default(), gemini_api_key: String::new() }
    }
}

impl Config {
    /// The text of the settings file's path below a base directory.
    pub open spec fn path_text_under(base: Option<Seq<char>>) -> Seq<char> {
        path_pushed(app_dir_text(base), "config.json"@)
    }

    /// The settings file below `base`: `voice-prompt/config.json`.
    pub fn path_under(base: Option<std::path::PathBuf>) -> (file: std::path::PathBuf)
        ensures
            path_text(file) == Self::path_text_under(opt_path_text(base)),
    {
        let mut p = app_dir_under(base);
        path_push(&mut p, "config.json");
        p
    }

    /// The directory of the settings file: `voice-prompt` below the user's
    /// configuration directory, or below `.` where the environment names none.
    pub fn dir() -> (dir: std::path::PathBuf)
        ensures
            exists|base: Option<Seq<char>>| path_text(dir) == app_dir_text(base),
    {
        let base = user_config_dir();
        let dir = app_dir_under(base);
        dir
    }

    /// The settings file, `config.json` in [`Config::dir`].
    pub fn path() -> (file: std::path::PathBuf)
        ensures
            exists|base: Option<Seq<char>>| path_text(file) == Self::path_text_under(base),
    {
        let base = user_config_dir();
        let file = Self::path_under(base);
        file
    }

    /// The settings to run with: those read from disk, or the defaults where
    /// the file was missing or could not be read as settings.
    pub fn loaded_or_default(stored: Option<Config>) -> (config: Config)
        ensures
            config@ == (match stored {
                Some(c) => c@,
                None => ConfigView::initial(),
            }),
    {
        match stored {
            Some(c) => c,
            None => Config::default(),
        }
    }
}

} // verus!
