//! A field-by-field builder for the default message type.

use vstd::prelude::*;

use crate::errors::Error;
use crate::message::Message;
use crate::traits::{FromCoreFields, HasSeverity, HasText, IsSeverity};

verus! {

/// A builder for [`Message`]: fields are set one by one, as key-value pairs,
/// and [`MessageBuilder::build`] produces the message once both required
/// fields are present.
#[derive(Default)]
pub struct MessageBuilder<S> {
    /// The severity of the message to build.
    pub severity: Option<S>,
    /// The text of the message to build.
    pub text: Option<&'static str>,
}

impl<S: IsSeverity> MessageBuilder<S> {
    /// Finishes the builder.
    ///
    /// Both severity and text are required: the builder fails with the
    /// matching required-field error when either was never set, checking the
    /// severity first. With both set, the message holds exactly the given
    /// severity and text.
    pub fn build(self) -> (r: Result<Message<S>, Error>)
        ensures
            self.severity is None ==> r == Err::<Message<S>, Error>(Error::MissingSeverity),
            self.severity is Some && self.text is None ==> r == Err::<Message<S>, Error>(
                Error::MissingText,
            ),
            self.severity is Some && self.text is Some ==> (r matches Ok(m)
                && m.severity_spec() == self.severity->0 && m.text_spec() == self.text->0@),
    {
        match self.severity {
            Some(severity) => match self.text {
                Some(text) => Ok(Message::from_core_fields(severity, text)),
                None => Err(Error::MissingText),
            },
            None => Err(Error::MissingSeverity),
        }
    }
}

} // verus!
