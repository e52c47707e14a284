//! Fakes functions at runtime by patching their machine code: the part that
//! decides.
//!
//! The crate computes everything a code patch consists of: the machine
//! instructions, the search for trampoline memory within branch range, the
//! bytes that overwrite a function's entry, and the guard that puts the
//! original bytes back exactly once. It never touches memory itself. Its
//! callers read the bytes and map the pages that it asks for, write what it
//! hands out, and stop where it refuses.
//!
//! - [`injector_core`] holds the engine: instruction encoders, trampoline
//!   placement, one patch strategy per architecture, and the guard.
//! - [`interface`] holds what callers hand in: function addresses with their
//!   signatures, and call-count expectations.
//! - [`utilities`] holds the description of mocked HTTP responses.
pub mod injector_core;
pub mod interface;
pub mod utilities;
