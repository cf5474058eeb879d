//! A structured-logging facade.
//!
//! Messages carry a severity and a text payload. A [`Logger`] filters each
//! message against a minimum-severity threshold and fans accepted messages out
//! to its registered writers, in registration order. Writers render messages
//! through a pluggable formatter and hand the result to an output destination.

mod errors;
mod logger;
mod message;
mod severity;
mod traits;

pub mod formatters;
pub mod private;
pub mod writers;

pub use errors::Error;
pub use logger::{
    lemma_default_accepts_all, lemma_threshold_filtering, wrote_once, Logger, SharedWriter,
};
pub use message::Message;
pub use severity::Severity;
pub use traits::{
    Format, FromCoreFields, HasDebugSeverity, HasDeveloperWarningSeverity, HasErrorSeverity,
    HasFatalSeverity, HasInfoSeverity, HasSeverity, HasText, HasTraceSeverity, HasWarningSeverity,
    IsSeverity, TextSink, Write,
};
