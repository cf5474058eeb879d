//! Formatter implementations.

pub mod plaintext;

pub use plaintext::Plaintext;
