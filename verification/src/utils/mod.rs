//! Shared utilities: the library-wide error type.

pub mod error;
