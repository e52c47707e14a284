//! Helpers built on top of the patching engine.
pub mod network;
