//! Voice Prompt, the verified core: a hotkey starts and stops a recording,
//! the recording is transcribed, the transcript refined and the result
//! delivered to the clipboard.
//!
//! The crate holds the decisions and leaves the devices to its caller. The
//! [`orchestrator`] maps each event to the next state of the session and to
//! the commands that the caller carries out; [`hotkey`] tracks the held keys
//! and decides when the trigger fires; the other modules hold the rules of
//! capture, refinement, storage and display. Every function states what it
//! returns in its contract, and Verus proves the contract from the body.
pub mod audio_feedback;
pub mod clipboard;
pub mod config;
pub mod hotkey;
pub mod orchestrator;
pub mod paths;
pub mod recorder;
pub mod refiner;
pub mod stats;
pub mod text;
pub mod transcriber;
pub mod ui;
