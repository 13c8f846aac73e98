//! Lifecycle and bookkeeping of a WebAssembly engine's execution context.
//!
//! The engine itself stays outside: every function here takes what the engine
//! answered as a plain value and decides what the runtime holds afterwards.

pub mod environment;
pub mod error;
pub mod function;
pub mod handle;
pub mod laws;
pub mod module;
pub mod raw_slice;
pub mod runtime;
pub mod utils;
