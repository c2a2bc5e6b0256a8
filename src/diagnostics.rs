//! Names for the driver's error codes and debug-message enumerants, and the
//! text reported for them.
use vstd::prelude::*;
use crate::gl;
use crate::text::{decimal, push_decimal};

verus! {

pub open spec fn error_name_spec(code: u32) -> Seq<char> {
    if code == gl::GL_INVALID_ENUM {
        "INVALID_ENUM"@
    } else if code == gl::GL_INVALID_VALUE {
        "INVALID_VALUE"@
    } else if code == gl::GL_INVALID_OPERATION {
        "INVALID_OPERATION"@
    } else if code == gl::GL_STACK_OVERFLOW {
        "STACK_OVERFLOW"@
    } else if code == gl::GL_STACK_UNDERFLOW {
        "STACK_UNDERFLOW"@
    } else if code == gl::GL_OUT_OF_MEMORY {
        "OUT_OF_MEMORY"@
    } else if code == gl::GL_INVALID_FRAMEBUFFER_OPERATION {
        "INVALID_FRAMEBUFFER_OPERATION"@
    } else {
        "unknown GL error code"@
    }
}

/// The name of an error code that `glGetError` returned.
pub fn error_name(code: u32) -> (r: &'static str)
    ensures
        r@ == error_name_spec(code),
{
    if code == gl::GL_INVALID_ENUM {
        "INVALID_ENUM"
    } else if code == gl::GL_INVALID_VALUE {
        "INVALID_VALUE"
    } else if code == gl::GL_INVALID_OPERATION {
        "INVALID_OPERATION"
    } else if code == gl::GL_STACK_OVERFLOW {
        "STACK_OVERFLOW"
    } else if code == gl::GL_STACK_UNDERFLOW {
        "STACK_UNDERFLOW"
    } else if code == gl::GL_OUT_OF_MEMORY {
        "OUT_OF_MEMORY"
    } else if code == gl::GL_INVALID_FRAMEBUFFER_OPERATION {
        "INVALID_FRAMEBUFFER_OPERATION"
    } else {
        "unknown GL error code"
    }
}

/// The report of an error code found at `line` of `file`:
/// `NAME | file (line)`.
pub fn error_report(code: u32, file: &str, line: u32) -> (r: String)
    ensures
        r@ == error_name_spec(code) + " | "@ + file@ + " ("@ + decimal(line as nat) + ")"@,
{
    let mut r = String::from_str(error_name(code));
    r.append(" | ");
    r.append(file);
    r.append(" (");
    push_decimal(&mut r, line);
    r.append(")");
    r
}

pub open spec fn source_name_spec(source: u32) -> Seq<char> {
    if source == gl::GL_DEBUG_SOURCE_API {
        "API"@
    } else if source == gl::GL_DEBUG_SOURCE_WINDOW_SYSTEM {
        "Window System"@
    } else if source == gl::GL_DEBUG_SOURCE_SHADER_COMPILER {
        "Shader Compiler"@
    } else if source == gl::GL_DEBUG_SOURCE_THIRD_PARTY {
        "Third Party"@
    } else if source == gl::GL_DEBUG_SOURCE_APPLICATION {
        "Application"@
    } else if source == gl::GL_DEBUG_SOURCE_OTHER {
        "Other"@
    } else {
        "Unknown enum value"@
    }
}

pub fn source_name(source: u32) -> (r: &'static str)
    ensures
        r@ == source_name_spec(source),
{
    if source == gl::GL_DEBUG_SOURCE_API {
        "API"
    } else if source == gl::GL_DEBUG_SOURCE_WINDOW_SYSTEM {
        "Window System"
    } else if source == gl::GL_DEBUG_SOURCE_SHADER_COMPILER {
        "Shader Compiler"
    } else if source == gl::GL_DEBUG_SOURCE_THIRD_PARTY {
        "Third Party"
    } else if source == gl::GL_DEBUG_SOURCE_APPLICATION {
        "Application"
    } else if source == gl::GL_DEBUG_SOURCE_OTHER {
        "Other"
    } else {
        "Unknown enum value"
    }
}

pub open spec fn type_name_spec(kind: u32) -> Seq<char> {
    if kind == gl::GL_DEBUG_TYPE_ERROR {
        "Error"@
    } else if kind == gl::GL_DEBUG_TYPE_DEPRECATED_BEHAVIOR {
        "Deprecated Behaviour"@
    } else if kind == gl::GL_DEBUG_TYPE_UNDEFINED_BEHAVIOR {
        "Undefined Behaviour"@
    } else if kind == gl::GL_DEBUG_TYPE_PORTABILITY {
        "Portability"@
    } else if kind == gl::GL_DEBUG_TYPE_PERFORMANCE {
        "Performance"@
    } else if kind == gl::GL_DEBUG_TYPE_MARKER {
        "Marker"@
    } else if kind == gl::GL_DEBUG_TYPE_PUSH_GROUP {
        "Push Group"@
    } else if kind == gl::GL_DEBUG_TYPE_POP_GROUP {
        "Pop Group"@
    } else if kind == gl::GL_DEBUG_TYPE_OTHER {
        "Other"@
    } else {
        "Unknown enum value"@
    }
}

pub fn message_type_name(kind: u32) -> (r: &'static str)
    ensures
        r@ == type_name_spec(kind),
{
    if kind == gl::GL_DEBUG_TYPE_ERROR {
        "Error"
    } else if kind == gl::GL_DEBUG_TYPE_DEPRECATED_BEHAVIOR {
        "Deprecated Behaviour"
    } else if kind == gl::GL_DEBUG_TYPE_UNDEFINED_BEHAVIOR {
        "Undefined Behaviour"
    } else if kind == gl::GL_DEBUG_TYPE_PORTABILITY {
        "Portability"
    } else if kind == gl::GL_DEBUG_TYPE_PERFORMANCE {
        "Performance"
    } else if kind == gl::GL_DEBUG_TYPE_MARKER {
        "Marker"
    } else if kind == gl::GL_DEBUG_TYPE_PUSH_GROUP {
        "Push Group"
    } else if kind == gl::GL_DEBUG_TYPE_POP_GROUP {
        "Pop Group"
    } else if kind == gl::GL_DEBUG_TYPE_OTHER {
        "Other"
    } else {
        "Unknown enum value"
    }
}

pub open spec fn severity_name_spec(severity: u32) -> Seq<char> {
    if severity == gl::GL_DEBUG_SEVERITY_HIGH {
        "high"@
    } else if severity == gl::GL_DEBUG_SEVERITY_MEDIUM {
        "medium"@
    } else if severity == gl::GL_DEBUG_SEVERITY_LOW {
        "low"@
    } else if severity == gl::GL_DEBUG_SEVERITY_NOTIFICATION {
        "notification"@
    } else {
        "Unknown enum value"@
    }
}

pub fn severity_name(severity: u32) -> (r: &'static str)
    ensures
        r@ == severity_name_spec(severity),
{
    if severity == gl::GL_DEBUG_SEVERITY_HIGH {
        "high"
    } else if severity == gl::GL_DEBUG_SEVERITY_MEDIUM {
        "medium"
    } else if severity == gl::GL_DEBUG_SEVERITY_LOW {
        "low"
    } else if severity == gl::GL_DEBUG_SEVERITY_NOTIFICATION {
        "notification"
    } else {
        "Unknown enum value"
    }
}

/// Message ids that carry no information and are not reported.
pub open spec fn is_ignored_spec(id: u32) -> bool {
    id == 131169 || id == 131185 || id == 131218 || id == 131204
}

pub fn is_ignored_message(id: u32) -> (r: bool)
    ensures
        r == is_ignored_spec(id),
{
    id == 131169 || id == 131185 || id == 131218 || id == 131204
}

/// The lines that report a debug message, or none for an ignored id.
pub open spec fn debug_report_spec(id: u32, source: u32, kind: u32, severity: u32, message: Seq<char>) -> Seq<
    Seq<char>,
> {
    if is_ignored_spec(id) {
        Seq::empty()
    } else {
        seq![
            "--"@,
            "Debug message ("@ + decimal(id as nat) + "): "@ + message,
            "Source: "@ + source_name_spec(source),
            "Type: "@ + type_name_spec(kind),
            "Severity: "@ + severity_name_spec(severity),
        ]
    }
}

pub open spec fn lines_view(lines: Seq<String>) -> Seq<Seq<char>> {
    lines.map_values(|l: String| l@)
}

pub fn debug_report(id: u32, source: u32, kind: u32, severity: u32, message: &str) -> (r: Vec<String>)
    ensures
        lines_view(r@) == debug_report_spec(id, source, kind, severity, message@),
{
    let mut r: Vec<String> = Vec::new();
    if is_ignored_message(id) {
        assert(lines_view(r@) =~= Seq::<Seq<char>>::empty());
        return r;
    }
    r.push(String::from_str("--"));
    let mut head = String::from_str("Debug message (");
    push_decimal(&mut head, id);
    head.append("): ");
    head.append(message);
    r.push(head);
    let mut s = String::from_str("Source: ");
    s.append(source_name(source));
    r.push(s);
    let mut t = String::from_str("Type: ");
    t.append(message_type_name(kind));
    r.push(t);
    let mut v = String::from_str("Severity: ");
    v.append(severity_name(severity));
    r.push(v);
    assert(lines_view(r@) =~= debug_report_spec(id, source, kind, severity, message@));
    r
}

} // verus!
