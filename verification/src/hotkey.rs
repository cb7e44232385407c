//! The global trigger combination: how keys are named, how held keys are
//! matched against the configured combination, and how a new combination is
//! captured.
pub mod capture;
pub mod linux;
pub mod listener;
pub mod macos;
pub mod names;
