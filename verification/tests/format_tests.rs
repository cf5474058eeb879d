use got_ur_logs_uwu::formatters::Plaintext;
use got_ur_logs_uwu::{
    Error, Format, FromCoreFields, HasDebugSeverity, HasDeveloperWarningSeverity, HasErrorSeverity,
    HasFatalSeverity, HasInfoSeverity, HasTraceSeverity, HasWarningSeverity, IsSeverity, Message,
    Severity,
};

#[test]
fn default_format_renders_info() {
    let mut formatter = Plaintext::new_default();
    let message = Message::from_core_fields(Severity::Info, "hello, world");

    let rendered = formatter.format(&message).unwrap();

    assert_eq!(rendered, "[INFO] hello, world");
}

#[test]
fn default_format_renders_developer_warning() {
    let mut formatter = Plaintext::new_default();
    let message = Message::from_core_fields(Severity::DeveloperWarning, "for developers only");

    let rendered = formatter.format(&message).unwrap();

    assert_eq!(rendered, "[DEV WARNING] for developers only");
}

#[test]
fn custom_template_renders_serialized_severity() {
    let mut formatter = Plaintext::new("{{severity}}: {{text}}").unwrap();
    let message = Message::from_core_fields(Severity::Info, "hello, world");

    let rendered = formatter.format(&message).unwrap();

    assert_eq!(rendered, "info: hello, world");
}

#[test]
fn template_without_substitutions_renders_itself() {
    let mut formatter = Plaintext::new("fixed line").unwrap();
    let message = Message::from_core_fields(Severity::Error, "ignored");

    let rendered = formatter.format(&message).unwrap();

    assert_eq!(rendered, "fixed line");
}

#[test]
fn malformed_template_fails_at_construction() {
    let result = Plaintext::new("{{#if}}");

    assert_eq!(result.err(), Some(Error::InvalidTemplate));
}

#[test]
fn unknown_helper_fails_at_render() {
    let mut formatter = Plaintext::new("{{shout text}}").unwrap();
    let message = Message::from_core_fields(Severity::Info, "hello");

    let result = formatter.format(&message);

    assert_eq!(result.err(), Some(Error::RenderFailed));
}

#[test]
fn severity_names_are_serialized_forms() {
    assert_eq!(Severity::Trace.name(), "trace");
    assert_eq!(Severity::Debug.name(), "debug");
    assert_eq!(Severity::DeveloperWarning.name(), "dev warning");
    assert_eq!(Severity::Info.name(), "info");
    assert_eq!(Severity::Warning.name(), "warning");
    assert_eq!(Severity::Error.name(), "error");
    assert_eq!(Severity::Fatal.name(), "fatal");
}

#[test]
fn severity_display_names_are_uppercase_forms() {
    assert_eq!(Severity::Trace.display_name(), "TRACE");
    assert_eq!(Severity::DeveloperWarning.display_name(), "DEV WARNING");
    assert_eq!(Severity::Fatal.display_name(), "FATAL");
}

#[test]
fn severity_order_runs_from_trace_to_fatal() {
    assert_eq!(<Severity as IsSeverity>::min(), Severity::Trace);
    assert_eq!(<Severity as IsSeverity>::max(), Severity::Fatal);
    assert!(Severity::Trace.le(&Severity::Debug));
    assert!(Severity::Debug.le(&Severity::DeveloperWarning));
    assert!(Severity::DeveloperWarning.le(&Severity::Info));
    assert!(Severity::Info.le(&Severity::Warning));
    assert!(Severity::Warning.le(&Severity::Error));
    assert!(Severity::Error.le(&Severity::Fatal));
    assert!(!Severity::Fatal.le(&Severity::Trace));
    assert!(!Severity::Info.le(&Severity::DeveloperWarning));
}

#[test]
fn named_levels_match_variants() {
    assert_eq!(<Severity as HasTraceSeverity>::trace_severity(), Severity::Trace);
    assert_eq!(<Severity as HasDebugSeverity>::debug_severity(), Severity::Debug);
    assert_eq!(
        <Severity as HasDeveloperWarningSeverity>::developer_warning_severity(),
        Severity::DeveloperWarning
    );
    assert_eq!(<Severity as HasInfoSeverity>::info_severity(), Severity::Info);
    assert_eq!(<Severity as HasWarningSeverity>::warning_severity(), Severity::Warning);
    assert_eq!(<Severity as HasErrorSeverity>::error_severity(), Severity::Error);
    assert_eq!(<Severity as HasFatalSeverity>::fatal_severity(), Severity::Fatal);
    assert_eq!(Severity::default(), Severity::Info);
}
