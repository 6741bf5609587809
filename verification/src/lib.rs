//! Core of a push-to-talk voice assistant.
//!
//! The library holds the verified logic: the audio container codec, the
//! capture buffer handoff, the playback queue, trigger aggregation, the
//! session state machine, and conversation-history composition. Device I/O,
//! networking and persistence live outside, in the surrounding application.

pub mod capture;
pub mod chatlog;
pub mod codec;
pub mod config;
pub mod dispatch;
pub mod playback;
pub mod session;
pub mod trigger;
