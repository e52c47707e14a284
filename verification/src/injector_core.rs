//! The patching engine: instruction encoders, trampoline placement, patch
//! strategies per architecture and the restoring guard.
pub mod arm64_codegenerator;
pub mod common;
pub mod internal;
pub mod jit_memory;
pub mod patch_amd64;
pub mod patch_arm;
pub mod patch_arm64;
pub mod patch_trait;
pub mod utils;
