//! Core of an issue-tracker reply bot: classifying inbound events, building
//! AI prompts, and a dispatch state machine with idempotent self-echo
//! suppression backed by a single persisted last-reply record.

pub mod classifier;
pub mod dispatcher;
pub mod event;
pub mod prompt;
pub mod store;

pub use event::Event;
