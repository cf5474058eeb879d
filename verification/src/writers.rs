//! Writer implementations.

pub mod console;

pub use console::{ConsoleWriter, StderrSink, StdoutSink, StringSink};
