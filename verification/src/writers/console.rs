//! A writer that renders messages through a formatter and emits the result
//! to an output destination.

use core::marker::PhantomData;
use vstd::prelude::*;
use vstd::string::StringExecFns;

use crate::errors::Error;
use crate::traits::{Format, HasSeverity, HasText, IsSeverity, TextSink, Write};

verus! {

/// Relies on `std::io::Stdout::write_all`: on `Ok` the whole buffer was
/// handed to the stream.
#[verifier::external_body]
fn stdout_write(text: &str) -> (r: Result<(), Error>)
    ensures
        r matches Err(e) ==> e == Error::WriteFailed,
{
    match std::io::Write::write_all(&mut std::io::stdout(), text.as_bytes()) {
        Ok(()) => Ok(()),
        Err(_) => Err(Error::WriteFailed),
    }
}

/// Relies on `std::io::Stderr::write_all`: on `Ok` the whole buffer was
/// handed to the stream.
#[verifier::external_body]
fn stderr_write(text: &str) -> (r: Result<(), Error>)
    ensures
        r matches Err(e) ==> e == Error::WriteFailed,
{
    match std::io::Write::write_all(&mut std::io::stderr(), text.as_bytes()) {
        Ok(()) => Ok(()),
        Err(_) => Err(Error::WriteFailed),
    }
}

/// The standard-output destination.
///
/// `received` models the text this sink has handed to the stream.
pub struct StdoutSink {
    history: Ghost<Seq<char>>,
}

impl StdoutSink {
    /// A destination for the process's standard output.
    pub fn new() -> (s: Self)
        ensures
            s.received() == Seq::<char>::empty(),
    {
        StdoutSink { history: Ghost(Seq::empty()) }
    }
}

impl TextSink for StdoutSink {
    closed spec fn received(&self) -> Seq<char> {
        self.history@
    }

    /// A failed call leaves the model unchanged and reports `WriteFailed`.
    open spec fn put_ens(pre: Self, post: Self, text: Seq<char>, r: Result<(), Error>) -> bool {
        r is Err ==> post.received() == pre.received() && r == Err::<(), Error>(Error::WriteFailed)
    }

    fn put(&mut self, text: &str) -> (r: Result<(), Error>) {
        match stdout_write(text) {
            Ok(()) => {
                self.history = Ghost(self.history@ + text@);
                Ok(())
            },
            Err(e) => Err(e),
        }
    }
}

/// The standard-error destination.
///
/// `received` models the text this sink has handed to the stream.
pub struct StderrSink {
    history: Ghost<Seq<char>>,
}

impl StderrSink {
    /// A destination for the process's standard error.
    pub fn new() -> (s: Self)
        ensures
            s.received() == Seq::<char>::empty(),
    {
        StderrSink { history: Ghost(Seq::empty()) }
    }
}

impl TextSink for StderrSink {
    closed spec fn received(&self) -> Seq<char> {
        self.history@
    }

    /// A failed call leaves the model unchanged and reports `WriteFailed`.
    open spec fn put_ens(pre: Self, post: Self, text: Seq<char>, r: Result<(), Error>) -> bool {
        r is Err ==> post.received() == pre.received() && r == Err::<(), Error>(Error::WriteFailed)
    }

    fn put(&mut self, text: &str) -> (r: Result<(), Error>) {
        match stderr_write(text) {
            Ok(()) => {
                self.history = Ghost(self.history@ + text@);
                Ok(())
            },
            Err(e) => Err(e),
        }
    }
}

/// An in-memory destination: everything the writer emits is kept in a string
/// the caller can read back. This is the caller-supplied destination to hand
/// to [`ConsoleWriter::new_write`] when the output should stay observable.
pub struct StringSink {
    data: String,
}

impl StringSink {
    /// An empty in-memory destination.
    pub fn new() -> (s: Self)
        ensures
            s.received() == Seq::<char>::empty(),
    {
        StringSink { data: String::new() }
    }

    /// Everything this destination has accepted so far, in order.
    pub fn contents(&self) -> (t: &str)
        ensures
            t@ == self.received(),
    {
        self.data.as_str()
    }
}

impl TextSink for StringSink {
    closed spec fn received(&self) -> Seq<char> {
        self.data@
    }

    /// An in-memory destination never fails.
    open spec fn put_ens(pre: Self, post: Self, text: Seq<char>, r: Result<(), Error>) -> bool {
        r is Ok
    }

    fn put(&mut self, text: &str) -> (r: Result<(), Error>) {
        self.data.append(text);
        Ok(())
    }
}

/// A writer that renders each message through its formatter and emits the
/// rendered text to its destination: standard output, standard error, or a
/// caller-supplied one.
pub struct ConsoleWriter<S, M, F, K> {
    formatter: F,
    sink: K,
    history: Ghost<Seq<M>>,
    severity_type: PhantomData<S>,
}

impl<S: IsSeverity, M: HasSeverity<S> + HasText, F: Format<S, M>, K: TextSink> ConsoleWriter<
    S,
    M,
    F,
    K,
> {
    /// The formatter this writer renders through.
    pub closed spec fn formatter_view(&self) -> F {
        self.formatter
    }

    /// The destination this writer emits to.
    pub closed spec fn sink_view(&self) -> K {
        self.sink
    }

    /// Reads the destination back, e.g. to inspect an in-memory sink after
    /// dispatch.
    pub fn sink(&self) -> (k: &K)
        ensures
            *k == self.sink_view(),
    {
        &self.sink
    }

    /// A writer that emits to the given caller-supplied destination.
    pub fn new_write(sink: K, formatter: F) -> (w: Self)
        ensures
            w.written() == Seq::<M>::empty(),
            w.formatter_view() == formatter,
            w.sink_view() == sink,
    {
        ConsoleWriter { formatter, sink, history: Ghost(Seq::empty()), severity_type: PhantomData }
    }
}

impl<S: IsSeverity, M: HasSeverity<S> + HasText, F: Format<S, M>> ConsoleWriter<
    S,
    M,
    F,
    StdoutSink,
> {
    /// A writer that emits to standard output.
    pub fn new_stdout(formatter: F) -> (w: Self)
        ensures
            w.written() == Seq::<M>::empty(),
            w.formatter_view() == formatter,
    {
        ConsoleWriter {
            formatter,
            sink: StdoutSink::new(),
            history: Ghost(Seq::empty()),
            severity_type: PhantomData,
        }
    }
}

impl<S: IsSeverity, M: HasSeverity<S> + HasText, F: Format<S, M>> ConsoleWriter<
    S,
    M,
    F,
    StderrSink,
> {
    /// A writer that emits to standard error.
    pub fn new_stderr(formatter: F) -> (w: Self)
        ensures
            w.written() == Seq::<M>::empty(),
            w.formatter_view() == formatter,
    {
        ConsoleWriter {
            formatter,
            sink: StderrSink::new(),
            history: Ghost(Seq::empty()),
            severity_type: PhantomData,
        }
    }
}

impl<S: IsSeverity, M: HasSeverity<S> + HasText, F: Format<S, M>, K: TextSink> Write<S, M>
    for ConsoleWriter<S, M, F, K> {
    closed spec fn written(&self) -> Seq<M> {
        self.history@
    }

    /// One write call renders the message with the formatter the writer held
    /// before the call and, where rendering succeeded, hands exactly the
    /// rendered text to the destination, whose own `put` guarantee carries
    /// over; where rendering fails the destination is left untouched and the
    /// render error is returned, so a caller can tell a render failure from a
    /// destination failure.
    open spec fn write_ens(pre: Self, post: Self, message: M, r: Result<(), Error>) -> bool {
        match pre.formatter_view().render_spec(message.severity_spec(), message.text_spec()) {
            Some(out) => {
                &&& (r is Ok ==> post.sink_view().received() == pre.sink_view().received() + out)
                &&& K::put_ens(pre.sink_view(), post.sink_view(), out, r)
            },
            None => r == Err::<(), Error>(Error::RenderFailed) && post.sink_view().received()
                == pre.sink_view().received(),
        }
    }

    fn write(&mut self, message: &M) -> (r: Result<(), Error>) {
        self.history = Ghost(self.history@.push(*message));
        match self.formatter.format(message) {
            Ok(text) => self.sink.put(text.as_str()),
            Err(e) => Err(e),
        }
    }
}

} // verus!
