use gles_kit::command::Command;
use gles_kit::gl::{GL_FRAGMENT_SHADER, GL_GEOMETRY_SHADER, GL_VERTEX_SHADER};
use gles_kit::shader::{BuildAction, Shader, ShaderBuild, ShaderError, ShaderStage};

#[test]
fn valid_pair_builds_a_program_with_no_diagnostics() {
    let mut b = ShaderBuild::new(false);
    assert_eq!(b.next_action(), BuildAction::Compile(ShaderStage::Vertex));
    b.compiled(1, true, String::new());
    assert_eq!(b.next_action(), BuildAction::Compile(ShaderStage::Fragment));
    b.compiled(2, true, String::new());
    assert_eq!(b.next_action(), BuildAction::Link { shaders: vec![1, 2] });
    b.linked(3, true, String::new());
    assert_eq!(b.next_action(), BuildAction::Release { shaders: vec![1, 2] });
    b.released();
    assert_eq!(b.next_action(), BuildAction::Done);
    assert!(b.errors.is_empty());
    assert_eq!(b.finish(), Ok(Shader { id: 3 }));
}

#[test]
fn geometry_stage_is_compiled_third() {
    let mut b = ShaderBuild::new(true);
    b.compiled(1, true, String::new());
    b.compiled(2, true, String::new());
    assert_eq!(b.next_action(), BuildAction::Compile(ShaderStage::Geometry));
    b.compiled(5, true, String::new());
    assert_eq!(b.next_action(), BuildAction::Link { shaders: vec![1, 2, 5] });
}

#[test]
fn failed_stage_skips_link_but_still_releases() {
    let mut b = ShaderBuild::new(false);
    b.compiled(1, false, "0:1: syntax error".to_string());
    // the other stage is still compiled
    assert_eq!(b.next_action(), BuildAction::Compile(ShaderStage::Fragment));
    b.compiled(2, false, "0:3: undeclared".to_string());
    assert_eq!(b.next_action(), BuildAction::Release { shaders: vec![1, 2] });
    b.released();
    assert_eq!(b.next_action(), BuildAction::Done);
    assert_eq!(
        b.finish(),
        Err(vec![
            ShaderError::Compile { stage: ShaderStage::Vertex, log: "0:1: syntax error".to_string() },
            ShaderError::Compile { stage: ShaderStage::Fragment, log: "0:3: undeclared".to_string() },
        ])
    );
}

#[test]
fn failed_link_is_reported() {
    let mut b = ShaderBuild::new(false);
    b.compiled(1, true, String::new());
    b.compiled(2, true, String::new());
    b.linked(3, false, "missing main".to_string());
    assert_eq!(b.program, Some(3));
    assert_eq!(b.next_action(), BuildAction::Release { shaders: vec![1, 2] });
    b.released();
    assert_eq!(b.finish(), Err(vec![ShaderError::Link { log: "missing main".to_string() }]));
}

#[test]
fn diagnostic_messages() {
    let e = ShaderError::Compile { stage: ShaderStage::Fragment, log: "bad".to_string() };
    assert_eq!(e.message(), "ERROR::SHADER_COMPILATION_ERROR of type: FRAGMENT\nbad\n ");
    let e = ShaderError::Link { log: "oops".to_string() };
    assert_eq!(e.message(), "ERROR::PROGRAM_LINKING_ERROR of type: PROGRAM\noops\n ");
}

#[test]
fn stage_types_and_labels() {
    assert_eq!(ShaderStage::Vertex.shader_type(), GL_VERTEX_SHADER);
    assert_eq!(ShaderStage::Fragment.shader_type(), GL_FRAGMENT_SHADER);
    assert_eq!(ShaderStage::Geometry.shader_type(), GL_GEOMETRY_SHADER);
    assert_eq!(ShaderStage::Vertex.label(), "VERTEX");
    assert_eq!(ShaderStage::Geometry.label(), "GEOMETRY");
}

#[test]
fn uniform_commands() {
    let s = Shader { id: 6 };
    assert_eq!(s.use_program(), Command::UseProgram { program: 6 });
    assert_eq!(s.set_int("n", -4), Command::SetUniformInt { program: 6, name: "n".to_string(), value: -4 });
    assert_eq!(s.set_bool("on", true), Command::SetUniformInt { program: 6, name: "on".to_string(), value: 1 });
    assert_eq!(s.set_bool("on", false), Command::SetUniformInt { program: 6, name: "on".to_string(), value: 0 });
}
