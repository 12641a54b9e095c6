//! The decisions of a herald instance: its rotating log, its per-turn logging
//! hook and its federation with other instances.
//!
//! Sockets, files, clocks and tasks belong to the program around this library.
//! It hands plain values in, performs what comes back, and reports the result.

pub mod federation;
pub mod hooks;
pub mod laws;
pub mod logging;
pub mod outside;
pub mod text;
