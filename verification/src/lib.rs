//! Control core of an interactive terminal system-monitoring dashboard.
//!
//! The library owns the message-driven application reducer (dashboard state,
//! freeze mode, active screen, termination flag, redraw decisions) and the
//! input-event router with its timeout-bounded multi-key sequence recognizer.
//! Data harvesting, layout, painting and process termination are external
//! collaborators: they only exchange plain values with this core.
use vstd::prelude::*;

pub mod app;
pub mod constants;
pub mod units;

verus! {

/// A process identifier, as the operating system reports it.
pub type Pid = i32;

} // verus!
