//! A single-slot cooperative executor: at most one task runs at a time, it is
//! advanced one step per call, and its finished output waits in the slot until
//! it is collected.
mod executor;
pub mod laws;
mod phase;

pub use executor::{cancel, copy_response, spawn, spin, CopyResponseErr, Executor, Poll, Task};
pub use phase::{cancel_outcome, copy_outcome, spin_all, spin_phase, Phase};
