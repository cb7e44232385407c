//! The orchestrator: one session state, changed by one event at a time.
//!
//! Every function here maps the state and one input to the next state and
//! the commands that the caller has to carry out, in order. A command that
//! asks for an answer is the last of its list; the caller hands the answer
//! back before it delivers the next event.
pub mod event_handler;
pub mod invariants;
pub mod model;
pub mod pipeline;
pub mod recording;
pub mod state;
pub mod transitions;
