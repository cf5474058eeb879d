use got_ur_logs_uwu::private::MessageBuilder;
use got_ur_logs_uwu::{Error, FromCoreFields, HasSeverity, HasText, Message, Severity};

#[test]
fn core_fields() {
    let message = Message::from_core_fields(Severity::Debug, "test");

    assert_eq!(*message.severity(), Severity::Debug);
    assert_eq!(message.text(), "test");
}

#[test]
fn build_message() {
    let built = MessageBuilder::<Severity> {
        severity: Some(Severity::Info),
        text: Some("test"),
    }
    .build();

    assert!(built.is_ok());
}

#[test]
fn build_message_round_trip() {
    let built = MessageBuilder::<Severity> {
        severity: Some(Severity::Warning),
        text: Some("something looks off"),
    }
    .build()
    .unwrap();

    assert_eq!(*built.severity(), Severity::Warning);
    assert_eq!(built.text(), "something looks off");
}

#[test]
fn build_without_text_fails() {
    let built = MessageBuilder::<Severity> {
        severity: Some(Severity::Info),
        text: None,
    }
    .build();

    assert_eq!(built.err(), Some(Error::MissingText));
}

#[test]
fn build_without_severity_fails() {
    let built = MessageBuilder::<Severity> {
        severity: None,
        text: Some("test"),
    }
    .build();

    assert_eq!(built.err(), Some(Error::MissingSeverity));
}

#[test]
fn build_from_default_builder_fails() {
    let built = MessageBuilder::<Severity>::default().build();

    assert_eq!(built.err(), Some(Error::MissingSeverity));
}
