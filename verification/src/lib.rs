//! A file "trigger" relay: watched files are polled on access events, their
//! raw content is resolved through a per-trigger value mapping, and a change
//! of the resolved value is fanned out to the actions bound to the trigger,
//! which plan a write of derived content to every file matching a glob
//! pattern.
//!
//! The library holds the state and decision logic of the relay: the debounced
//! poll-and-cache state machine of each trigger, the watch-identifier routing
//! table, and the trigger-name-keyed dispatch that turns a new value into a
//! plan of file writes. Reading the watched files, performing the planned
//! writes and consuming the operating system's file-notification events are
//! left to the surrounding program.

pub mod config;
pub mod dispatch;
pub mod handler;
pub mod laws;
pub mod registry;
pub mod text;
pub mod value_map;
