//! Core logic of a small process supervisor daemon.
//!
//! The daemon starts child processes on behalf of remote clients, keeps a
//! table of the children it started, and relays signals, waits, and reads and
//! writes on their standard streams. Everything that decides something lives
//! here and is verified; the sockets, the child processes themselves and the
//! task scheduling live in the `app` crate around it.
pub mod api;
pub mod frame;
pub mod handler;
pub mod laws;
pub mod network;
pub mod process_manager;
pub mod signal;
pub mod utils;
