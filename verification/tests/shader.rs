use webgl_resources::protocol::{
    Command, Handle, Reply, COMPILE_STATUS, FRAGMENT_SHADER, LINK_STATUS, VERTEX_SHADER,
};
use webgl_resources::shader::{
    compile_shader, link_program, BuildStep, CompilePhase, LinkPhase, FRAGMENT_SHADER_SOURCE,
    PROGRAM_LOG_MISSING, PROGRAM_NOT_CREATED, SHADER_LOG_MISSING, SHADER_NOT_CREATED,
    VERTEX_SHADER_SOURCE,
};

#[test]
fn compile_starts_by_creating_the_shader() {
    let step = compile_shader(CompilePhase::Start, VERTEX_SHADER, "void main() {}", Reply::Nothing);
    assert_eq!(
        step,
        BuildStep::Issue {
            next: CompilePhase::Creating,
            commands: vec![Command::CreateShader { kind: 0x8B31 }],
        }
    );
}

#[test]
fn compile_first_step_reads_no_reply() {
    let with_text = compile_shader(
        CompilePhase::Start,
        FRAGMENT_SHADER,
        "void main() {}",
        Reply::Text(String::from("stale")),
    );
    let with_nothing =
        compile_shader(CompilePhase::Start, FRAGMENT_SHADER, "void main() {}", Reply::Nothing);
    assert_eq!(with_text, with_nothing);
}

#[test]
fn compile_hands_source_over_then_asks_for_status() {
    let step = compile_shader(
        CompilePhase::Creating,
        VERTEX_SHADER,
        "void main() {}",
        Reply::Object(Handle(7)),
    );
    assert_eq!(
        step,
        BuildStep::Issue {
            next: CompilePhase::Compiling { shader: Handle(7) },
            commands: vec![
                Command::ShaderSource { shader: Handle(7), source: String::from("void main() {}") },
                Command::CompileShader { shader: Handle(7) },
                Command::GetShaderParameter { shader: Handle(7), pname: COMPILE_STATUS },
            ],
        }
    );
}

#[test]
fn compile_fails_without_shader_object() {
    for reply in [Reply::Nothing, Reply::Flag(true), Reply::Location(3), Reply::Code(0)] {
        let step = compile_shader(CompilePhase::Creating, VERTEX_SHADER, "void main() {}", reply);
        assert_eq!(step, BuildStep::Done(Err(String::from("Unable to create shader object"))));
    }
    assert_eq!(SHADER_NOT_CREATED, "Unable to create shader object");
}

#[test]
fn compile_succeeds_when_status_is_set() {
    let step = compile_shader(
        CompilePhase::Compiling { shader: Handle(7) },
        VERTEX_SHADER,
        "void main() {}",
        Reply::Flag(true),
    );
    assert_eq!(step, BuildStep::Done(Ok(Handle(7))));
}

#[test]
fn compile_asks_for_log_when_status_is_not_set() {
    for reply in [Reply::Flag(false), Reply::Nothing, Reply::Object(Handle(1)), Reply::Code(1)] {
        let step = compile_shader(
            CompilePhase::Compiling { shader: Handle(7) },
            VERTEX_SHADER,
            "void main() {}",
            reply,
        );
        assert_eq!(
            step,
            BuildStep::Issue {
                next: CompilePhase::ReadingLog,
                commands: vec![Command::GetShaderInfoLog { shader: Handle(7) }],
            }
        );
    }
}

#[test]
fn compile_fails_with_the_log() {
    let step = compile_shader(
        CompilePhase::ReadingLog,
        VERTEX_SHADER,
        "void main() {}",
        Reply::Text(String::from("ERROR: 0:1: syntax error")),
    );
    assert_eq!(step, BuildStep::Done(Err(String::from("ERROR: 0:1: syntax error"))));
}

#[test]
fn compile_fails_with_fixed_text_when_log_is_missing() {
    let step =
        compile_shader(CompilePhase::ReadingLog, VERTEX_SHADER, "void main() {}", Reply::Nothing);
    assert_eq!(step, BuildStep::Done(Err(String::from("Unknown error creating shader"))));
    assert_eq!(SHADER_LOG_MISSING, "Unknown error creating shader");
}

#[test]
fn link_starts_by_creating_the_program() {
    let step = link_program(LinkPhase::Start, Handle(1), Handle(2), Reply::Nothing);
    assert_eq!(
        step,
        BuildStep::Issue { next: LinkPhase::Creating, commands: vec![Command::CreateProgram] }
    );
}

#[test]
fn link_attaches_vertex_then_fragment_then_links() {
    let step = link_program(LinkPhase::Creating, Handle(1), Handle(2), Reply::Object(Handle(3)));
    assert_eq!(
        step,
        BuildStep::Issue {
            next: LinkPhase::Linking { program: Handle(3) },
            commands: vec![
                Command::AttachShader { program: Handle(3), shader: Handle(1) },
                Command::AttachShader { program: Handle(3), shader: Handle(2) },
                Command::LinkProgram { program: Handle(3) },
                Command::GetProgramParameter { program: Handle(3), pname: LINK_STATUS },
            ],
        }
    );
}

#[test]
fn link_fails_without_program_object() {
    let step = link_program(LinkPhase::Creating, Handle(1), Handle(2), Reply::Nothing);
    assert_eq!(step, BuildStep::Done(Err(String::from("Unable to create shader object"))));
    assert_eq!(PROGRAM_NOT_CREATED, "Unable to create shader object");
}

#[test]
fn link_succeeds_when_status_is_set() {
    let step = link_program(
        LinkPhase::Linking { program: Handle(3) },
        Handle(1),
        Handle(2),
        Reply::Flag(true),
    );
    assert_eq!(step, BuildStep::Done(Ok(Handle(3))));
}

#[test]
fn link_asks_for_log_when_status_is_not_set() {
    let step = link_program(
        LinkPhase::Linking { program: Handle(3) },
        Handle(1),
        Handle(2),
        Reply::Flag(false),
    );
    assert_eq!(
        step,
        BuildStep::Issue {
            next: LinkPhase::ReadingLog,
            commands: vec![Command::GetProgramInfoLog { program: Handle(3) }],
        }
    );
}

#[test]
fn link_fails_with_the_log_or_a_fixed_text() {
    let with_log = link_program(
        LinkPhase::ReadingLog,
        Handle(1),
        Handle(2),
        Reply::Text(String::from("varying mismatch")),
    );
    assert_eq!(with_log, BuildStep::Done(Err(String::from("varying mismatch"))));
    let without = link_program(LinkPhase::ReadingLog, Handle(1), Handle(2), Reply::Nothing);
    assert_eq!(without, BuildStep::Done(Err(String::from("Unknown error creating program object"))));
    assert_eq!(PROGRAM_LOG_MISSING, "Unknown error creating program object");
}

#[test]
fn shader_sources_declare_their_version_first() {
    assert!(VERTEX_SHADER_SOURCE.starts_with("#version 300 es\n"));
    assert!(FRAGMENT_SHADER_SOURCE.starts_with("#version 300 es\n"));
    assert!(VERTEX_SHADER_SOURCE.contains("in vec4 position;"));
    assert!(VERTEX_SHADER_SOURCE.contains("gl_Position = position;"));
    assert!(FRAGMENT_SHADER_SOURCE.contains("outColor = vec4(1, 1, 1, 1);"));
    assert_eq!(VERTEX_SHADER_SOURCE.lines().count(), 6);
    assert_eq!(FRAGMENT_SHADER_SOURCE.lines().count(), 7);
}
