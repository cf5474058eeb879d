//! The error type shared by the library.

use vstd::prelude::*;

verus! {

/// Everything that can go wrong across the library.
///
/// Construction-time failures (`InvalidTemplate`) are recoverable: the caller
/// can fall back to another template. `MissingSeverity` and `MissingText`
/// report a message builder that was asked to build before its required
/// fields were set. `RenderFailed` and `WriteFailed` surface from a writer
/// during dispatch and are reported per writer, never aborting the fan-out.
#[derive(Clone, Copy, Debug, PartialEq, Eq, Structural)]
pub enum Error {
    /// A message builder was finished without a severity.
    MissingSeverity,
    /// A message builder was finished without a text payload.
    MissingText,
    /// A formatter template failed to compile.
    InvalidTemplate,
    /// A formatter failed to render a message.
    RenderFailed,
    /// An output destination rejected rendered text.
    WriteFailed,
}

} // verus!
