//! A single-slot, latest-value-wins frame buffer and the capture loop that
//! feeds it, as sequential state machines.
//!
//! The types here hold the state that a capture thread and its consumers
//! share. Every operation is one atomic step on that state: the caller is
//! expected to run each step under mutual exclusion and to do the blocking
//! work (device reads, sleeping until the slot changes) between steps.

pub mod frame;
pub mod slot;
pub mod capture;
pub mod stream;
pub mod laws;
