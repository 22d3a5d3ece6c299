//! Core of a telemetry monitor for a vendor graphics device: a facade over a
//! runtime-loaded native module that reports per-pin current readings, the
//! refresh protocol that drives it on a fixed cadence, and an append-only CSV
//! logging sink.
//!
//! The native module itself is loaded and called by the host program; this
//! crate holds the verified decision logic: handle lifecycle, candidate-path
//! resolution, outcome classification, record updates, and the exact bytes of
//! every CSV write.

pub mod dll;
pub mod logging;
pub mod poller;
pub mod telemetry;

pub use telemetry::AmperageData;
