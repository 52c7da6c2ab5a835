//! Typing session engine: word-corpus loading and sampling, per-word
//! progression with advance/undo, character-level input comparison, a
//! phase-gated round timer, and the session state machine that ties them
//! together. Rendering is an external collaborator: it reads snapshots of
//! this state and feeds discrete input events back in.

pub mod diff;
pub mod progress;
pub mod session;
pub mod text;
pub mod timer;
pub mod word_generator;
