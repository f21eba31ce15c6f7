//! Errors raised by circuit modules during synthesis, and their passage to and
//! from the error type of the halo2 proving framework.
//!
//! A module error is lifted from a framework error without loss, and is handed
//! to the framework as its generic synthesis failure, with all detail dropped:
//! read the message before that point.

pub mod decimal;
pub mod errors;
pub mod halo2;

pub use errors::ModuleError;
