//! A desktop window-and-embedded-web-surface controller core.
//!
//! The native window and the embedded web surface do not exist until the
//! one-time materializing operation runs; before that, callers configure the
//! window and stage content to load. This crate holds the lifecycle and
//! state-staging logic: the configuration record with its default resolution,
//! the single-slot content stager, the materialization plan, the storage
//! context path derivation, and the event-loop state machine. The native
//! window system and the browser engine are opaque collaborators driven by a
//! thin unverified shell around this library.

pub mod options;
pub mod runner;
pub mod window;
