use got_ur_logs_uwu::formatters::Plaintext;
use got_ur_logs_uwu::writers::{ConsoleWriter, StringSink};
use got_ur_logs_uwu::{FromCoreFields, Message, Severity, Write};

#[test]
fn smoke_stdout() {
    let formatter = Plaintext::new_default();

    let mut writer =
        ConsoleWriter::<Severity, Message<Severity>, _, _>::new_stdout(formatter);

    let result = writer.write(&Message::from_core_fields(Severity::Info, "hello, world"));
    assert!(result.is_ok());
}

#[test]
fn smoke_stderr() {
    let formatter = Plaintext::new_default();

    let mut writer =
        ConsoleWriter::<Severity, Message<Severity>, _, _>::new_stderr(formatter);

    let result = writer.write(&Message::from_core_fields(Severity::Warning, "hello, world"));
    assert!(result.is_ok());
}

#[test]
fn write_to_sink_keeps_rendered_text() {
    let mut writer = ConsoleWriter::<Severity, Message<Severity>, _, _>::new_write(
        StringSink::new(),
        Plaintext::new_default(),
    );

    let first = writer.write(&Message::from_core_fields(Severity::Info, "hello, world"));
    let second = writer.write(&Message::from_core_fields(Severity::Error, "gone wrong"));

    assert!(first.is_ok());
    assert!(second.is_ok());
    assert_eq!(
        writer.sink().contents(),
        "[INFO] hello, world[ERROR] gone wrong"
    );
}
