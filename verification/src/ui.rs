//! What the windows show, as far as it is decided here.
pub mod history;
pub mod overlay;
