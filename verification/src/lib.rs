//! Session dispatch engine for an end-to-end encrypted overlay on a
//! text-chat channel.
//!
//! The library detects armored message blocks embedded in chat text,
//! keeps a bounded FIFO cache of sightings keyed by a digest-derived
//! fingerprint, classifies decrypt diagnostics, holds session-scoped
//! configuration overrides, and routes user commands to actions.  All
//! network and subprocess work stays outside the library: callers hand
//! in plain values and perform the actions the router returns.

use vstd::prelude::*;

pub mod classify;
pub mod command;
pub mod detect;
pub mod digest;
pub mod dispatch;
pub mod inbox;
pub mod keyring;
pub mod render;
pub mod route;
pub mod session;
pub mod text;

verus! {

/// Static configuration supplied at process start: the transport
/// credential and the default channel to listen and send on.
pub struct Config {
    pub token: String,
    pub channel_id: u64,
}

} // verus!
