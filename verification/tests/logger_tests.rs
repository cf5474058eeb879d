use got_ur_logs_uwu::formatters::Plaintext;
use got_ur_logs_uwu::writers::{ConsoleWriter, StringSink};
use got_ur_logs_uwu::{Error, FromCoreFields, Logger, Message, Severity, SharedWriter};

type StringWriter = ConsoleWriter<Severity, Message<Severity>, Plaintext, StringSink>;

fn recording_writer() -> StringWriter {
    ConsoleWriter::new_write(StringSink::new(), Plaintext::new_default())
}

fn test_logger(logger: &Logger<Severity, Message<Severity>, StringWriter>) -> usize {
    let mut invocations = 0;
    invocations += logger
        .log_message(Message::from_core_fields(Severity::Info, "test"))
        .len();
    invocations += logger.log_with_severity(Severity::Info, "test").len();
    invocations += logger.log_trace("test").len();
    invocations += logger.log_debug("test").len();
    invocations += logger.log_developer_warning("test").len();
    invocations += logger.log_info("test").len();
    invocations += logger.log_warning("test").len();
    invocations += logger.log_error("test").len();
    invocations += logger.log_fatal("test").len();
    invocations
}

#[test]
fn no_op_smoke() {
    let logger = Logger::<Severity, Message<Severity>, StringWriter>::default();

    test_logger(&logger);
}

#[test]
fn writes_messages_local() {
    let mut logger = Logger::<Severity, Message<Severity>, StringWriter>::default();

    let writer = SharedWriter::new(recording_writer());
    logger.add_writer_shared(writer.duplicate());

    let invocations = test_logger(&logger);

    assert_eq!(invocations, 9);
    let writer = writer.replace(recording_writer());
    assert_eq!(
        writer.sink().contents(),
        "[INFO] test[INFO] test[TRACE] test[DEBUG] test[DEV WARNING] test\
         [INFO] test[WARNING] test[ERROR] test[FATAL] test"
    );
}

#[test]
fn messages_below_threshold_are_dropped() {
    let mut logger = Logger::<Severity, Message<Severity>, StringWriter>::default();
    logger.set_min_severity(Severity::Warning);

    let writer = SharedWriter::new(recording_writer());
    logger.add_writer_shared(writer.duplicate());

    assert_eq!(logger.log_trace("quiet").len(), 0);
    assert_eq!(logger.log_info("quiet").len(), 0);
    assert_eq!(logger.log_warning("at threshold").len(), 1);
    assert_eq!(logger.log_fatal("above threshold").len(), 1);

    let writer = writer.replace(recording_writer());
    assert_eq!(
        writer.sink().contents(),
        "[WARNING] at threshold[FATAL] above threshold"
    );
}

#[test]
fn fanout_reaches_every_writer_once() {
    let mut logger = Logger::<Severity, Message<Severity>, StringWriter>::default();

    let first = SharedWriter::new(recording_writer());
    let second = SharedWriter::new(ConsoleWriter::new_write(
        StringSink::new(),
        Plaintext::new("{{severity}}: {{text}}").unwrap(),
    ));
    logger.add_writer_shared(first.duplicate());
    logger.add_writer_shared(second.duplicate());

    assert_eq!(logger.log_error("first message").len(), 2);
    assert_eq!(logger.log_info("second message").len(), 2);

    let first = first.replace(recording_writer());
    let second = second.replace(recording_writer());
    assert_eq!(
        first.sink().contents(),
        "[ERROR] first message[INFO] second message"
    );
    assert_eq!(
        second.sink().contents(),
        "error: first messageinfo: second message"
    );
}

#[test]
fn registering_one_writer_twice_delivers_twice() {
    let mut logger = Logger::<Severity, Message<Severity>, StringWriter>::default();

    let writer = SharedWriter::new(recording_writer());
    logger.add_writer_shared(writer.duplicate());
    logger.add_writer_shared(writer.duplicate());

    assert_eq!(logger.log_info("once").len(), 2);

    let writer = writer.replace(recording_writer());
    assert_eq!(writer.sink().contents(), "[INFO] once[INFO] once");
}

#[test]
fn writer_failure_is_isolated() {
    let mut logger = Logger::<Severity, Message<Severity>, StringWriter>::default();

    // The first writer's template calls a helper that does not exist, so
    // every write through it fails at render time.
    let failing = SharedWriter::new(ConsoleWriter::new_write(
        StringSink::new(),
        Plaintext::new("{{shout text}}").unwrap(),
    ));
    let working = SharedWriter::new(recording_writer());
    logger.add_writer_shared(failing.duplicate());
    logger.add_writer_shared(working.duplicate());

    let outcomes = logger.log_message(Message::from_core_fields(Severity::Error, "boom"));

    assert_eq!(outcomes, vec![Err(Error::RenderFailed), Ok(())]);
    let working = working.replace(recording_writer());
    assert_eq!(working.sink().contents(), "[ERROR] boom");
}

#[test]
fn shared_writer_is_mutable_between_log_calls() {
    let mut logger = Logger::<Severity, Message<Severity>, StringWriter>::default();

    let writer = SharedWriter::new(recording_writer());
    logger.add_writer_shared(writer.duplicate());

    logger.log_info("before");
    let seen_so_far = writer.replace(recording_writer());
    assert_eq!(seen_so_far.sink().contents(), "[INFO] before");

    logger.log_info("after");
    let seen_after = writer.replace(recording_writer());
    assert_eq!(seen_after.sink().contents(), "[INFO] after");
}

#[test]
fn add_writer_takes_ownership() {
    let mut logger = Logger::<Severity, Message<Severity>, StringWriter>::default();

    logger.add_writer(recording_writer());
    logger.add_writer(recording_writer());

    assert_eq!(logger.log_info("shared by both").len(), 2);
}
