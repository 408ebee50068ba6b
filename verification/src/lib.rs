//! Install, build and launch pipeline for a version-pinned external toolchain.
//!
//! The library decides everything that can be decided from plain values:
//! where the toolchain and the game data live, which arguments each tool is
//! given, how an exit code is turned into a step result, and how the error
//! catalog and the GPU probe result are read from JSON text. Spawning
//! processes and touching the filesystem is left to the caller.

pub mod outcome;
pub mod config;
pub mod layout;
pub mod version;
pub mod json;
pub mod catalog;
pub mod steps;
pub mod gpu;
pub mod pipeline;
pub mod laws;
