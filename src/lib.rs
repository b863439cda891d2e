//! Per-process execution accounting for a quantum-based CPU scheduler.
//!
//! A [`process::Process`] tracks how much CPU time a simulated process has
//! consumed, when it blocks for I/O, and its response and turnaround times.
//! A driver dispatches it with a time quantum and the current simulated
//! clock; the process reports how much of the quantum it used.
pub mod process;
pub mod accounting;
