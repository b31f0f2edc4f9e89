//! A userspace out-of-memory prevention daemon: threshold evaluation over
//! RAM, swap and pressure-stall readings, candidate ranking over process
//! records, and the termination protocol that guards against PID reuse.
//!
//! The library decides; a host program reads `/proc`, the clock and the
//! configuration file, sends signals, and writes the event stream.
pub mod text;
pub mod events;
pub mod logging;
pub mod utils;
pub mod psi;
pub mod config_error;
pub mod config;
pub mod monitor;
pub mod killer;
