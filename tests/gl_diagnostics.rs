use gles_kit::diagnostics::{debug_report, error_name, error_report, is_ignored_message, message_type_name, severity_name, source_name};
use gles_kit::gl::{GL_DEBUG_SEVERITY_HIGH, GL_DEBUG_SEVERITY_LOW, GL_DEBUG_SEVERITY_NOTIFICATION, GL_DEBUG_SOURCE_API, GL_DEBUG_SOURCE_SHADER_COMPILER, GL_DEBUG_TYPE_DEPRECATED_BEHAVIOR, GL_DEBUG_TYPE_ERROR, GL_DEBUG_TYPE_OTHER, GL_DEBUG_TYPE_POP_GROUP, GL_INVALID_ENUM, GL_INVALID_FRAMEBUFFER_OPERATION, GL_INVALID_OPERATION, GL_INVALID_VALUE, GL_OUT_OF_MEMORY, GL_STACK_OVERFLOW, GL_STACK_UNDERFLOW};

#[test]
fn error_names() {
    assert_eq!(error_name(GL_INVALID_ENUM), "INVALID_ENUM");
    assert_eq!(error_name(GL_INVALID_VALUE), "INVALID_VALUE");
    assert_eq!(error_name(GL_INVALID_OPERATION), "INVALID_OPERATION");
    assert_eq!(error_name(GL_STACK_OVERFLOW), "STACK_OVERFLOW");
    assert_eq!(error_name(GL_STACK_UNDERFLOW), "STACK_UNDERFLOW");
    assert_eq!(error_name(GL_OUT_OF_MEMORY), "OUT_OF_MEMORY");
    assert_eq!(error_name(GL_INVALID_FRAMEBUFFER_OPERATION), "INVALID_FRAMEBUFFER_OPERATION");
    assert_eq!(error_name(0x1234), "unknown GL error code");
}

#[test]
fn error_report_line() {
    assert_eq!(error_report(GL_INVALID_VALUE, "src/main.rs", 42), "INVALID_VALUE | src/main.rs (42)");
}

#[test]
fn debug_enum_names() {
    assert_eq!(source_name(GL_DEBUG_SOURCE_SHADER_COMPILER), "Shader Compiler");
    assert_eq!(source_name(7), "Unknown enum value");
    assert_eq!(message_type_name(GL_DEBUG_TYPE_DEPRECATED_BEHAVIOR), "Deprecated Behaviour");
    assert_eq!(message_type_name(GL_DEBUG_TYPE_POP_GROUP), "Pop Group");
    assert_eq!(severity_name(GL_DEBUG_SEVERITY_NOTIFICATION), "notification");
    assert_eq!(severity_name(0), "Unknown enum value");
}

#[test]
fn debug_message_report() {
    let lines = debug_report(1280, GL_DEBUG_SOURCE_API, GL_DEBUG_TYPE_ERROR, GL_DEBUG_SEVERITY_HIGH, "bad enum");
    assert_eq!(
        lines,
        vec!["--", "Debug message (1280): bad enum", "Source: API", "Type: Error", "Severity: high"]
    );
}

#[test]
fn insignificant_ids_are_ignored() {
    for id in [131169u32, 131185, 131218, 131204] {
        assert!(is_ignored_message(id));
        assert!(debug_report(id, GL_DEBUG_SOURCE_API, GL_DEBUG_TYPE_OTHER, GL_DEBUG_SEVERITY_LOW, "m").is_empty());
    }
    assert!(!is_ignored_message(131170));
}
