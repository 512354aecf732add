//! Verified core of a multi-disc audio ripping pipeline.
//!
//! The library models the rip as an explicit state machine: every decision
//! (drive resolution fallback, tray handling, per-track copying, per-disc and
//! whole-album combining, workspace lifecycle) is verified code, while the
//! surrounding program performs the device, file and console work and feeds
//! the outcome of each action back as an event.

pub mod listing;
pub mod machine;
pub mod meta;
pub mod names;
