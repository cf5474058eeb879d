//! The capability traits of the library.
//!
//! Severity types, message types, writers, formatters and output destinations
//! are all user-substitutable: the logger depends only on the capabilities
//! declared here, never on a concrete type. Each capability couples its
//! executable methods to spec functions, so that a caller of any
//! implementation can reason about what the methods return.

use vstd::prelude::*;

use crate::errors::Error;

verus! {

/// The capability every severity type must offer: a total order with a least
/// and a greatest element, and two human-readable renderings of each value.
///
/// `name_spec` is the serialized rendering, e.g. `info` or `dev warning`;
/// `display_spec` is the uppercase display form, e.g. `INFO` or `DEV WARNING`,
/// which the default formatter layout uses.
pub trait IsSeverity: Sized {
    /// The ordering relation: `self` is at most as severe as `other`.
    spec fn sev_le(self, other: Self) -> bool;

    /// The least severe value of the type.
    spec fn min_spec() -> Self;

    /// The most severe value of the type.
    spec fn max_spec() -> Self;

    /// The serialized rendering of the value.
    spec fn name_spec(&self) -> Seq<char>;

    /// The uppercase display form of the value.
    spec fn display_spec(&self) -> Seq<char>;

    /// The ordering must be a total order.
    proof fn lemma_order(a: Self, b: Self, c: Self)
        ensures
            a.sev_le(a),
            a.sev_le(b) && b.sev_le(c) ==> a.sev_le(c),
            a.sev_le(b) || b.sev_le(a),
            a.sev_le(b) && b.sev_le(a) ==> a == b,
    ;

    /// The minimum and maximum must bound every value.
    proof fn lemma_bounds(s: Self)
        ensures
            Self::min_spec().sev_le(s),
            s.sev_le(Self::max_spec()),
    ;

    /// Compares two severities by the ordering relation.
    fn le(&self, other: &Self) -> (r: bool)
        ensures
            r == self.sev_le(*other),
    ;

    /// Returns the least severe value. This is the most verbose level.
    fn min() -> (r: Self)
        ensures
            r == Self::min_spec(),
    ;

    /// Returns the most severe value. This is the most critical level.
    fn max() -> (r: Self)
        ensures
            r == Self::max_spec(),
    ;

    /// Returns the serialized rendering, e.g. `info`.
    fn name(&self) -> (s: String)
        ensures
            s@ == self.name_spec(),
    ;

    /// Returns the uppercase display form, e.g. `INFO`.
    fn display_name(&self) -> (s: String)
        ensures
            s@ == self.display_spec(),
    ;
}

/// A severity type that supports a trace level.
pub trait HasTraceSeverity: Sized {
    /// The trace level.
    spec fn trace_severity_spec() -> Self;

    /// Returns the trace level.
    fn trace_severity() -> (s: Self)
        ensures
            s == Self::trace_severity_spec(),
    ;
}

/// A severity type that supports a debug level.
pub trait HasDebugSeverity: Sized {
    /// The debug level.
    spec fn debug_severity_spec() -> Self;

    /// Returns the debug level.
    fn debug_severity() -> (s: Self)
        ensures
            s == Self::debug_severity_spec(),
    ;
}

/// A severity type that supports a developer warning level.
pub trait HasDeveloperWarningSeverity: Sized {
    /// The developer warning level.
    spec fn developer_warning_severity_spec() -> Self;

    /// Returns the developer warning level.
    fn developer_warning_severity() -> (s: Self)
        ensures
            s == Self::developer_warning_severity_spec(),
    ;
}

/// A severity type that supports an info level.
pub trait HasInfoSeverity: Sized {
    /// The info level.
    spec fn info_severity_spec() -> Self;

    /// Returns the info level.
    fn info_severity() -> (s: Self)
        ensures
            s == Self::info_severity_spec(),
    ;
}

/// A severity type that supports a warning level.
pub trait HasWarningSeverity: Sized {
    /// The warning level.
    spec fn warning_severity_spec() -> Self;

    /// Returns the warning level.
    fn warning_severity() -> (s: Self)
        ensures
            s == Self::warning_severity_spec(),
    ;
}

/// A severity type that supports an error level.
pub trait HasErrorSeverity: Sized {
    /// The error level.
    spec fn error_severity_spec() -> Self;

    /// Returns the error level.
    fn error_severity() -> (s: Self)
        ensures
            s == Self::error_severity_spec(),
    ;
}

/// A severity type that supports a fatal error level.
pub trait HasFatalSeverity: Sized {
    /// The fatal error level.
    spec fn fatal_severity_spec() -> Self;

    /// Returns the fatal error level.
    fn fatal_severity() -> (s: Self)
        ensures
            s == Self::fatal_severity_spec(),
    ;
}

/// A message type that carries a severity.
pub trait HasSeverity<S: IsSeverity> {
    /// The severity of the message.
    spec fn severity_spec(&self) -> S;

    /// Returns the severity of the message.
    fn severity(&self) -> (s: &S)
        ensures
            *s == self.severity_spec(),
    ;
}

/// A message type that carries a text payload.
pub trait HasText {
    /// The text of the message.
    spec fn text_spec(&self) -> Seq<char>;

    /// Returns the text of the message.
    fn text(&self) -> (t: &str)
        ensures
            t@ == self.text_spec(),
    ;
}

/// A message type that can be constructed from the two core fields alone.
pub trait FromCoreFields<S: IsSeverity>: HasSeverity<S> + HasText + Sized {
    /// Constructs a message holding exactly the given severity and text.
    fn from_core_fields(severity: S, text: &str) -> (m: Self)
        ensures
            m.severity_spec() == severity,
            m.text_spec() == text@,
    ;
}

/// The sink capability the logger fans out to: a writer accepts each message
/// dispatched to it, exactly once per dispatch.
///
/// `written` is the writer's model of the messages it has been handed, in
/// order; every call to `write` appends the message to that model, whether or
/// not the writer could emit it. `write_ens` lets an implementation promise
/// more about one call, e.g. how its output destination changed.
pub trait Write<S: IsSeverity, M: HasSeverity<S> + HasText>: Sized {
    /// The messages this writer has been handed, in order.
    spec fn written(&self) -> Seq<M>;

    /// What else a call to `write` guarantees, specific to the implementation.
    spec fn write_ens(pre: Self, post: Self, message: M, r: Result<(), Error>) -> bool;

    /// Accepts one message: renders and emits it however the writer chooses.
    /// A failure is local to this writer and reported to the dispatching
    /// logger, which carries on with the remaining writers.
    fn write(&mut self, message: &M) -> (r: Result<(), Error>)
        ensures
            final(self).written() == old(self).written().push(*message),
            Self::write_ens(*old(self), *final(self), *message, r),
    ;
}

/// The formatter capability writers delegate to: turning one message into its
/// rendered text.
///
/// `render_spec` is the formatter's rendering function; `format` returns
/// exactly that rendering, and fails — always with the render error — exactly
/// when the rendering is undefined for the given message.
pub trait Format<S: IsSeverity, M: HasSeverity<S> + HasText>: Sized {
    /// The rendering this formatter produces, or `None` where rendering fails.
    spec fn render_spec(&self, severity: S, text: Seq<char>) -> Option<Seq<char>>;

    /// Renders one message.
    fn format(&mut self, message: &M) -> (r: Result<String, Error>)
        ensures
            r matches Ok(s) ==> old(self).render_spec(
                message.severity_spec(),
                message.text_spec(),
            ) == Some(s@),
            r is Err ==> old(self).render_spec(
                message.severity_spec(),
                message.text_spec(),
            ) is None && r == Err::<String, Error>(Error::RenderFailed),
    ;
}

/// The destination capability a console writer emits rendered text to:
/// standard output, standard error, or any caller-supplied buffer.
pub trait TextSink: Sized {
    /// The text this sink has accepted so far.
    spec fn received(&self) -> Seq<char>;

    /// What else a call to `put` guarantees, specific to the implementation:
    /// an in-memory destination can promise that it never fails, a stream can
    /// say which error it reports.
    spec fn put_ens(pre: Self, post: Self, text: Seq<char>, r: Result<(), Error>) -> bool;

    /// Appends rendered text to the destination.
    fn put(&mut self, text: &str) -> (r: Result<(), Error>)
        ensures
            r is Ok ==> final(self).received() == old(self).received() + text@,
            Self::put_ens(*old(self), *final(self), text@, r),
    ;
}

} // verus!
