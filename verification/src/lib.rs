//! Core logic of a connectivity-watchdog daemon.
//!
//! The daemon probes a reference host ("the lighthouse") on the local
//! network; when the host stays unreachable past a debounce window, the
//! machine is suspended for a configured duration.  An operator can pause
//! the behaviour through a small file-resident marker.
//!
//! This crate holds the verified decision logic: the supervisor state
//! machine, the pause-marker semantics, decimal parsing and rendering for
//! the marker, and the pure text builders used at install time.  All I/O
//! (probing, suspending, file access, the interactive menus) lives in the
//! surrounding binary, which drives the state machine with the outcomes of
//! each action it is asked to perform.

pub mod config;
pub mod digits;
pub mod install;
pub mod laws;
pub mod locales;
pub mod netscan;
pub mod pause;
pub mod supervisor;
