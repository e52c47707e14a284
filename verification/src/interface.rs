//! What a caller hands to the engine and what the engine checks of it: function
//! addresses with their signatures, and call-count expectations.
pub mod call_count;
pub mod func_ptr;
pub mod injector;
