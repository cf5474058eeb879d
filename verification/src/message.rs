//! The default message type.

use vstd::prelude::*;

use crate::traits::{FromCoreFields, HasSeverity, HasText, IsSeverity};

verus! {

/// The default message type provided by the library: a severity paired with
/// an immutable text payload.
///
/// Callers can always define their own message type; the logger accepts any
/// type with the severity and text capabilities.
pub struct Message<S: IsSeverity> {
    severity: S,
    text: String,
}

impl<S: IsSeverity> HasSeverity<S> for Message<S> {
    closed spec fn severity_spec(&self) -> S {
        self.severity
    }

    fn severity(&self) -> (s: &S) {
        &self.severity
    }
}

impl<S: IsSeverity> HasText for Message<S> {
    closed spec fn text_spec(&self) -> Seq<char> {
        self.text@
    }

    fn text(&self) -> (t: &str) {
        self.text.as_str()
    }
}

impl<S: IsSeverity> FromCoreFields<S> for Message<S> {
    fn from_core_fields(severity: S, text: &str) -> (m: Self) {
        Message { severity, text: text.to_owned() }
    }
}

} // verus!
