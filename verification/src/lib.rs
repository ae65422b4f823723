//! Verified core of RadioCheck, a push-to-talk dictation tool that types
//! transcribed speech into the chat box of a racing simulator.
//!
//! The library holds the decisions of the tool: which key opens a chat box,
//! the keystroke plan that pastes a message, the settings model and its
//! defaults, log-level bookkeeping, and the steps of the recording pipeline.
//! Everything that touches the desktop (windows, tray, keyboard, clipboard,
//! audio) is carried out by the surrounding application.
use vstd::prelude::*;

pub mod text;
pub mod logging;
pub mod settings;
pub mod chat_inject;
pub mod actions;
pub mod events;

verus! {

} // verus!
