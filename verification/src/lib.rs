//! Bootstrap logic for a cross-compilation toolchain: target-triple parsing
//! and validation against a fixed allow-list, the mapping to the native build
//! system's vendor-aware triple naming, the staging plan for stage-1 build
//! artifacts, the passthrough-dispatcher argument assembly, and the
//! orchestrator's sequential build state machine.
//!
//! Everything here is pure computation over plain values; the thin binary
//! around it performs the process spawning and filesystem work this library
//! plans out.

pub mod dispatch;
pub mod error;
pub mod layout;
pub mod text;
pub mod orchestrator;
pub mod parse;
pub mod registry;
pub mod triple;
