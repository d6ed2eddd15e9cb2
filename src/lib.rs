//! Attach to a running host process: compile byte signatures, locate them in
//! the host module's image, resolve the host's internal capabilities, and
//! exchange reference-counted host values through proc hooks.

pub mod error;
pub mod signature;
pub mod scanner;
pub mod bootstrap;
pub mod runtime;
pub mod value;
pub mod string;
pub mod hooks;
