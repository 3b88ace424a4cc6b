//! Bookkeeping for a daemon that watches filesystems for modifications.
//!
//! The daemon remembers, for every filesystem identifier, whether the
//! filesystem has been modified since it was last marked unmodified.  This
//! crate holds that bookkeeping as a state machine: each event (a watcher
//! reporting a change, a client request, a restart from the cache) moves the
//! state and says which watcher, if any, must be started.  Waiting for events,
//! talking to clients and touching the disk are left to the caller.

pub mod filesystem;
pub mod registry;
pub mod state;
pub mod error;
pub mod model;
pub mod daemon;
pub mod ipc;
pub mod linux;
pub mod cli;
pub mod laws;
