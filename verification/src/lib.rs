//! Core logic of a menu-bar companion that shows the current user's daily
//! coding-time total, polled once a minute from a remote time-tracking
//! service, as the title of a tray icon.
//!
//! This crate holds the verified part: the configuration decisions, the
//! request building and response classification, the aggregation and
//! rendering of the displayed total, and the tray controller's state
//! machine. The surrounding process — file handling, the HTTP client, the
//! OS event loop and the tray toolkit — lives outside and drives these
//! functions with plain values.

pub mod config;
pub mod durations;
pub mod poll;
pub mod remote;
pub mod tray;
