//! Polling engine that samples a running game's memory and drives a
//! stopwatch: it starts the run on a rising edge of a readiness flag and
//! pauses game time while loading flags or a loading-screen overlay are seen.
//!
//! The engine never touches the host itself: each tick is a sequence of
//! requests (attach, query the timer, read bytes) that the host answers, and
//! ends with at most one timer command.
use vstd::prelude::*;

pub mod asl;
pub mod watcher;
pub mod layout;
pub mod pointers;
pub mod engine;
pub mod laws;
