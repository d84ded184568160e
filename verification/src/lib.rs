//! Coordination engine for a USB control-surface audio daemon: device-report
//! codec, signal conditioning, control/target model, app matching, the
//! orchestrating engine state machine, and the local control protocol framing.

use vstd::prelude::*;

pub mod audio;
pub mod control;
pub mod engine;
pub mod focus;
pub mod hid;
pub mod config;
pub mod ipc;
pub mod signal;
pub mod text;
pub mod transport;

verus! {

} // verus!
