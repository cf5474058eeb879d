//! The logger: severity filtering and fan-out to registered writers.

use core::marker::PhantomData;
use std::sync::Arc;
use vstd::prelude::*;
use vstd::rwlock::{RwLock, RwLockPredicate};

use crate::errors::Error;
use crate::traits::{
    FromCoreFields, HasDebugSeverity, HasDeveloperWarningSeverity, HasErrorSeverity,
    HasFatalSeverity, HasInfoSeverity, HasSeverity, HasText, HasTraceSeverity, HasWarningSeverity,
    IsSeverity, Write,
};

verus! {

/// Relies on `Arc::clone`: the result is a handle to the same allocation as
/// the argument, so its contents equal the argument's contents.
#[verifier::external_body]
fn arc_duplicate<T>(a: &Arc<T>) -> (res: Arc<T>)
    ensures
        res == *a,
{
    Arc::clone(a)
}

/// The lock invariant for writer locks: a writer may be left in any state
/// between dispatches, so every value satisfies it.
struct AnyState;

impl<W> RwLockPredicate<W> for AnyState {
    open spec fn inv(self, v: W) -> bool {
        true
    }
}

/// One `write` call of `message` produced `outcome`: some writer state took
/// exactly this message — its model of handed-over messages grew by it — and
/// answered with this outcome, under that writer type's own `write` guarantee.
///
/// `Logger::log_message` promises this of every entry in its outcome list, so
/// a caller knows each entry arose from a write of the dispatched message,
/// never from anywhere else; through `Write::write_ens` the writer type's own
/// per-call guarantee is available for each entry.
pub open spec fn wrote_once<S: IsSeverity, M: HasSeverity<S> + HasText, W: Write<S, M>>(
    message: M,
    outcome: Result<(), Error>,
) -> bool {
    exists|pre: W, post: W|
        post.written() == pre.written().push(message) && W::write_ens(pre, post, message, outcome)
}

/// A reference-counted handle to a writer behind a mutual-exclusion lock.
///
/// The logger wraps every registered writer in one of these, so that each
/// `write` call is serialized against every other caller of the same writer.
/// A handle can also be kept (or duplicated) by the code that registered the
/// writer, which can then reach the same writer instance between log calls,
/// or register it with several loggers at once. The writer lives as long as
/// its longest-lived handle.
pub struct SharedWriter<W> {
    lock: Arc<RwLock<W, AnyState>>,
}

impl<W> SharedWriter<W> {
    /// Wraps a writer for shared, serialized access.
    pub fn new(writer: W) -> (h: Self) {
        SharedWriter { lock: Arc::new(RwLock::new(writer, Ghost(AnyState))) }
    }

    /// Returns another handle to the same writer.
    pub fn duplicate(&self) -> (h: Self)
        ensures
            h == *self,
    {
        SharedWriter { lock: arc_duplicate(&self.lock) }
    }

    /// Exchanges the writer behind the handle for another one, returning the
    /// writer held before. This is how code outside a logger takes a shared
    /// writer out to inspect or rebuild it between log calls.
    pub fn replace(&self, writer: W) -> (prev: W) {
        let (prev, handle) = self.lock.acquire_write();
        handle.release_write(writer);
        prev
    }
}

/// The logger is the main interface of the library.
///
/// A logger owns a minimum-severity threshold and an ordered list of
/// registered writers. Each message it accepts is handed, unmodified, to
/// every registered writer in registration order; each message below the
/// threshold is dropped with no effect. One writer's failure never keeps the
/// remaining writers from receiving the message: `log_message` collects the
/// per-writer outcomes and reports them to the caller instead of giving up.
pub struct Logger<S, M, W> {
    min_severity: S,
    writers: Vec<SharedWriter<W>>,
    message_type: PhantomData<M>,
}

impl<S: IsSeverity, M: HasSeverity<S> + HasText, W: Write<S, M>> Logger<S, M, W> {
    /// The minimum severity this logger accepts.
    pub closed spec fn threshold(self) -> S {
        self.min_severity
    }

    /// The handles to the registered writers, in registration order.
    pub closed spec fn writer_handles(self) -> Seq<SharedWriter<W>> {
        self.writers@
    }

    /// How many writers are registered.
    pub open spec fn writer_count(self) -> nat {
        self.writer_handles().len()
    }

    /// Whether a message of the given severity is dispatched rather than
    /// dropped: it is iff the severity is at or above the threshold.
    pub open spec fn accepts(self, severity: S) -> bool {
        self.threshold().sev_le(severity)
    }

    /// Changes the minimum severity below which messages are dropped.
    pub fn set_min_severity(&mut self, severity: S)
        ensures
            final(self).threshold() == severity,
            final(self).writer_handles() == old(self).writer_handles(),
    {
        self.min_severity = severity;
    }

    /// Registers a writer that the logger owns exclusively, wrapping it for
    /// serialized access and appending it to the registration list.
    pub fn add_writer(&mut self, writer: W)
        ensures
            final(self).threshold() == old(self).threshold(),
            final(self).writer_count() == old(self).writer_count() + 1,
            final(self).writer_handles().take(old(self).writer_handles().len() as int)
                == old(self).writer_handles(),
    {
        self.writers.push(SharedWriter::new(writer));
        proof {
            assert(final(self).writer_handles().take(old(self).writer_handles().len() as int)
                =~= old(self).writer_handles());
        }
    }

    /// Registers a writer shared with the caller: the same writer instance
    /// stays reachable through every other handle to it.
    pub fn add_writer_shared(&mut self, writer: SharedWriter<W>)
        ensures
            final(self).threshold() == old(self).threshold(),
            final(self).writer_handles() == old(self).writer_handles().push(writer),
    {
        self.writers.push(writer);
    }

    /// Dispatches one message.
    ///
    /// A message below the threshold is dropped: no writer is invoked and the
    /// outcome list is empty. An accepted message is handed, unmodified, to
    /// every registered writer in registration order, locking each writer
    /// exclusively for the duration of its `write` call; the outcome list
    /// holds one entry per writer, in that same order, and each entry is the
    /// answer of one `write` call of exactly this message. A failing writer's
    /// error is recorded in its entry and dispatch carries on.
    pub fn log_message(&self, message: M) -> (outcomes: Vec<Result<(), Error>>)
        ensures
            self.accepts(message.severity_spec()) ==> outcomes@.len() == self.writer_count(),
            !self.accepts(message.severity_spec()) ==> outcomes@.len() == 0,
            forall|k: int|
                0 <= k < outcomes@.len() ==> wrote_once::<S, M, W>(message, #[trigger] outcomes@[k]),
    {
        let mut outcomes: Vec<Result<(), Error>> = Vec::new();
        if self.min_severity.le(message.severity()) {
            let mut i: usize = 0;
            while i < self.writers.len()
                invariant
                    i <= self.writers@.len(),
                    outcomes@.len() == i,
                    forall|k: int|
                        0 <= k < i ==> wrote_once::<S, M, W>(message, #[trigger] outcomes@[k]),
                decreases self.writers@.len() - i,
            {
                let shared = &self.writers[i];
                let (mut writer, handle) = shared.lock.acquire_write();
                let ghost pre_writer = writer;
                let outcome = writer.write(&message);
                proof {
                    let post_writer = writer;
                    assert(post_writer.written() == pre_writer.written().push(message));
                    assert(W::write_ens(pre_writer, post_writer, message, outcome));
                    assert(wrote_once::<S, M, W>(message, outcome));
                }
                handle.release_write(writer);
                outcomes.push(outcome);
                i = i + 1;
            }
        }
        outcomes
    }

    /// Builds a message from the two core fields and dispatches it: every
    /// outcome stems from a write of one message holding exactly this
    /// severity and text.
    pub fn log_with_severity(&self, severity: S, text: &str) -> (outcomes: Vec<Result<(), Error>>)
        where
            M: FromCoreFields<S>,
        ensures
            self.accepts(severity) ==> outcomes@.len() == self.writer_count(),
            !self.accepts(severity) ==> outcomes@.len() == 0,
            exists|m: M|
                #![trigger m.severity_spec()]
                m.severity_spec() == severity && m.text_spec() == text@ && (forall|k: int|
                    0 <= k < outcomes@.len() ==> wrote_once::<S, M, W>(m, #[trigger] outcomes@[k])),
    {
        let message = M::from_core_fields(severity, text);
        let ghost msg = message;
        let outcomes = self.log_message(message);
        proof {
            assert(msg.severity_spec() == severity && msg.text_spec() == text@ && (forall|k: int|
                0 <= k < outcomes@.len() ==> wrote_once::<S, M, W>(msg, #[trigger] outcomes@[k])));
        }
        outcomes
    }

    /// Dispatches a trace message. Only severity types with a trace level
    /// offer this call.
    pub fn log_trace(&self, text: &str) -> (outcomes: Vec<Result<(), Error>>)
        where
            M: FromCoreFields<S>,
            S: HasTraceSeverity,
        ensures
            self.accepts(S::trace_severity_spec()) ==> outcomes@.len() == self.writer_count(),
            !self.accepts(S::trace_severity_spec()) ==> outcomes@.len() == 0,
            exists|m: M|
                #![trigger m.severity_spec()]
                m.severity_spec() == S::trace_severity_spec() && m.text_spec() == text@ && (
                forall|k: int|
                    0 <= k < outcomes@.len() ==> wrote_once::<S, M, W>(
                        m,
                        #[trigger] outcomes@[k],
                    )),
    {
        self.log_with_severity(S::trace_severity(), text)
    }

    /// Dispatches a debug message. Only severity types with a debug level
    /// offer this call.
    pub fn log_debug(&self, text: &str) -> (outcomes: Vec<Result<(), Error>>)
        where
            M: FromCoreFields<S>,
            S: HasDebugSeverity,
        ensures
            self.accepts(S::debug_severity_spec()) ==> outcomes@.len() == self.writer_count(),
            !self.accepts(S::debug_severity_spec()) ==> outcomes@.len() == 0,
            exists|m: M|
                #![trigger m.severity_spec()]
                m.severity_spec() == S::debug_severity_spec() && m.text_spec() == text@ && (
                forall|k: int|
                    0 <= k < outcomes@.len() ==> wrote_once::<S, M, W>(
                        m,
                        #[trigger] outcomes@[k],
                    )),
    {
        self.log_with_severity(S::debug_severity(), text)
    }

    /// Dispatches a developer warning message. Only severity types with a
    /// developer warning level offer this call.
    pub fn log_developer_warning(&self, text: &str) -> (outcomes: Vec<Result<(), Error>>)
        where
            M: FromCoreFields<S>,
            S: HasDeveloperWarningSeverity,
        ensures
            self.accepts(S::developer_warning_severity_spec()) ==> outcomes@.len()
                == self.writer_count(),
            !self.accepts(S::developer_warning_severity_spec()) ==> outcomes@.len() == 0,
            exists|m: M|
                #![trigger m.severity_spec()]
                m.severity_spec() == S::developer_warning_severity_spec() && m.text_spec() == text@ && (
                forall|k: int|
                    0 <= k < outcomes@.len() ==> wrote_once::<S, M, W>(
                        m,
                        #[trigger] outcomes@[k],
                    )),
    {
        self.log_with_severity(S::developer_warning_severity(), text)
    }

    /// Dispatches an info message. Only severity types with an info level
    /// offer this call.
    pub fn log_info(&self, text: &str) -> (outcomes: Vec<Result<(), Error>>)
        where
            M: FromCoreFields<S>,
            S: HasInfoSeverity,
        ensures
            self.accepts(S::info_severity_spec()) ==> outcomes@.len() == self.writer_count(),
            !self.accepts(S::info_severity_spec()) ==> outcomes@.len() == 0,
            exists|m: M|
                #![trigger m.severity_spec()]
                m.severity_spec() == S::info_severity_spec() && m.text_spec() == text@ && (
                forall|k: int|
                    0 <= k < outcomes@.len() ==> wrote_once::<S, M, W>(
                        m,
                        #[trigger] outcomes@[k],
                    )),
    {
        self.log_with_severity(S::info_severity(), text)
    }

    /// Dispatches a warning message. Only severity types with a warning level
    /// offer this call.
    pub fn log_warning(&self, text: &str) -> (outcomes: Vec<Result<(), Error>>)
        where
            M: FromCoreFields<S>,
            S: HasWarningSeverity,
        ensures
            self.accepts(S::warning_severity_spec()) ==> outcomes@.len() == self.writer_count(),
            !self.accepts(S::warning_severity_spec()) ==> outcomes@.len() == 0,
            exists|m: M|
                #![trigger m.severity_spec()]
                m.severity_spec() == S::warning_severity_spec() && m.text_spec() == text@ && (
                forall|k: int|
                    0 <= k < outcomes@.len() ==> wrote_once::<S, M, W>(
                        m,
                        #[trigger] outcomes@[k],
                    )),
    {
        self.log_with_severity(S::warning_severity(), text)
    }

    /// Dispatches an error message. Only severity types with an error level
    /// offer this call.
    pub fn log_error(&self, text: &str) -> (outcomes: Vec<Result<(), Error>>)
        where
            M: FromCoreFields<S>,
            S: HasErrorSeverity,
        ensures
            self.accepts(S::error_severity_spec()) ==> outcomes@.len() == self.writer_count(),
            !self.accepts(S::error_severity_spec()) ==> outcomes@.len() == 0,
            exists|m: M|
                #![trigger m.severity_spec()]
                m.severity_spec() == S::error_severity_spec() && m.text_spec() == text@ && (
                forall|k: int|
                    0 <= k < outcomes@.len() ==> wrote_once::<S, M, W>(
                        m,
                        #[trigger] outcomes@[k],
                    )),
    {
        self.log_with_severity(S::error_severity(), text)
    }

    /// Dispatches a fatal error message. Only severity types with a fatal
    /// level offer this call.
    pub fn log_fatal(&self, text: &str) -> (outcomes: Vec<Result<(), Error>>)
        where
            M: FromCoreFields<S>,
            S: HasFatalSeverity,
        ensures
            self.accepts(S::fatal_severity_spec()) ==> outcomes@.len() == self.writer_count(),
            !self.accepts(S::fatal_severity_spec()) ==> outcomes@.len() == 0,
            exists|m: M|
                #![trigger m.severity_spec()]
                m.severity_spec() == S::fatal_severity_spec() && m.text_spec() == text@ && (
                forall|k: int|
                    0 <= k < outcomes@.len() ==> wrote_once::<S, M, W>(
                        m,
                        #[trigger] outcomes@[k],
                    )),
    {
        self.log_with_severity(S::fatal_severity(), text)
    }
}

impl<S: IsSeverity, M: HasSeverity<S> + HasText, W: Write<S, M>> Default for Logger<S, M, W> {
    /// A logger with no writers whose threshold is the least severe level,
    /// so that every message is accepted.
    fn default() -> (logger: Self)
        ensures
            logger.threshold() == S::min_spec(),
            logger.writer_count() == 0,
    {
        Logger { min_severity: S::min(), writers: Vec::new(), message_type: PhantomData }
    }
}

/// Default-threshold law: a logger whose threshold is the least severe level
/// — the state `Logger::default` constructs — accepts every message, whatever
/// its severity.
pub proof fn lemma_default_accepts_all<S: IsSeverity, M: HasSeverity<S> + HasText, W: Write<S, M>>(
    logger: Logger<S, M, W>,
    severity: S,
)
    requires
        logger.threshold() == S::min_spec(),
    ensures
        logger.accepts(severity),
{
    S::lemma_bounds(severity);
}

/// Threshold filtering law: take any two severities where `low` lies strictly
/// below `high` in the severity order. A logger whose threshold is `high`
/// rejects a message at `low` — `log_message` then invokes no writer and
/// returns an empty outcome list — and accepts a message at `high` or at any
/// severity above it, which `log_message` then hands to every registered
/// writer, one outcome per writer.
pub proof fn lemma_threshold_filtering<S: IsSeverity, M: HasSeverity<S> + HasText, W: Write<S, M>>(
    logger: Logger<S, M, W>,
    low: S,
    high: S,
)
    requires
        logger.threshold() == high,
        low.sev_le(high),
        low != high,
    ensures
        !logger.accepts(low),
        logger.accepts(high),
        forall|s: S| high.sev_le(s) ==> logger.accepts(s),
{
    S::lemma_order(low, high, low);
    S::lemma_order(high, low, high);
}

} // verus!
