//! The verified core of an asynchronous `-condebug` console logger for a game server:
//! how console messages are framed, how the background writer turns channel events
//! into writes of the log file, how code signatures are parsed and located in a
//! module image, and the per-platform tables that the hooks are installed from.
use vstd::prelude::*;

pub mod hooks;
pub mod message;
pub mod platform;
pub mod signature;
pub mod writer;

verus! {

/// Size of the engine's console message buffer, in bytes.
pub const MAXPRINTMSG: usize = 4096;

} // verus!
