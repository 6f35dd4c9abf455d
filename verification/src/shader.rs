//! Compiling the two shader stages and linking them into a program.
//!
//! Both jobs take several exchanges with the surface, and what the surface
//! answers decides how they go on. Each is therefore a function from the
//! phase that the job is in, and the reply to what was issued last, to what
//! has to be issued next.

use vstd::prelude::*;
use crate::protocol::{Command, CommandView, Handle, Reply, ReplyView, views, COMPILE_STATUS, LINK_STATUS};

verus! {

/// Source text of the vertex stage: it passes the `position` input through.
pub const VERTEX_SHADER_SOURCE: &'static str = r##"#version 300 es
            in vec4 position;
            void main() {
                gl_Position = position;
            }
            "##;

/// Source text of the fragment stage: it paints every fragment white.
pub const FRAGMENT_SHADER_SOURCE: &'static str = r##"#version 300 es
        precision highp float;
        out vec4 outColor;
        void main() {
            outColor = vec4(1, 1, 1, 1); // White color
        }
        "##;

/// Log of a compile whose shader object the surface did not create.
pub const SHADER_NOT_CREATED: &'static str = "Unable to create shader object";

/// Log of a failed compile about which the surface had nothing to say.
pub const SHADER_LOG_MISSING: &'static str = "Unknown error creating shader";

/// Log of a link whose program object the surface did not create.
pub const PROGRAM_NOT_CREATED: &'static str = "Unable to create shader object";

/// Log of a failed link about which the surface had nothing to say.
pub const PROGRAM_LOG_MISSING: &'static str = "Unknown error creating program object";

/// How far the compile of one stage has come.
#[derive(Clone, Copy, Debug, PartialEq, Eq)]
pub enum CompilePhase {
    /// Nothing was issued yet.
    Start,
    /// The shader object was asked for.
    Creating,
    /// The source was handed over and the compile status asked for.
    Compiling { shader: Handle },
    /// The compile failed, and its info log was asked for.
    ReadingLog,
}

/// How far the link of a program has come.
#[derive(Clone, Copy, Debug, PartialEq, Eq)]
pub enum LinkPhase {
    /// Nothing was issued yet.
    Start,
    /// The program object was asked for.
    Creating,
    /// The stages were attached and the link status asked for.
    Linking { program: Handle },
    /// The link failed, and its info log was asked for.
    ReadingLog,
}

/// What a job that builds one object of the surface asks for next.
#[derive(Debug, PartialEq, Eq)]
pub enum BuildStep<P> {
    /// Issue the commands in order, then call again in phase `next` with the
    /// reply to the last of them.
    Issue { next: P, commands: Vec<Command> },
    /// The job is over: the object that was built, or the log of the failure.
    Done(Result<Handle, String>),
}

/// What a [`BuildStep`] is as a mathematical value.
#[verifier::ext_equal]
pub enum BuildStepView<P> {
    Issue { next: P, commands: Seq<CommandView> },
    Done(Result<Handle, Seq<char>>),
}

impl<P> View for BuildStep<P> {
    type V = BuildStepView<P>;

    open spec fn view(&self) -> BuildStepView<P> {
        match *self {
            BuildStep::Issue { next, commands } => BuildStepView::Issue {
                next,
                commands: views(commands@),
            },
            BuildStep::Done(Ok(handle)) => BuildStepView::Done(Ok(handle)),
            BuildStep::Done(Err(log)) => BuildStepView::Done(Err(log@)),
        }
    }
}

/// One step of compiling `source` into a shader of kind `shader_type`.
///
/// The shader object is created first. Where the surface gives none, the
/// compile fails with [`SHADER_NOT_CREATED`]. Then the source is handed over
/// and compiled, and the compile status is read. The compile succeeds with
/// the shader's handle only if the status is reported as set. Otherwise the
/// info log is read, and the compile fails with it, or with
/// [`SHADER_LOG_MISSING`] where there is none.
pub open spec fn compile_step(
    phase: CompilePhase,
    shader_type: u32,
    source: Seq<char>,
    reply: ReplyView,
) -> BuildStepView<CompilePhase> {
    match phase {
        CompilePhase::Start => BuildStepView::Issue {
            next: CompilePhase::Creating,
            commands: seq![CommandView::CreateShader { kind: shader_type }],
        },
        CompilePhase::Creating => match reply.object() {
            Some(shader) => BuildStepView::Issue {
                next: CompilePhase::Compiling { shader },
                commands: seq![
                    CommandView::ShaderSource { shader, source },
                    CommandView::CompileShader { shader },
                    CommandView::GetShaderParameter { shader, pname: COMPILE_STATUS },
                ],
            },
            None => BuildStepView::Done(Err(SHADER_NOT_CREATED@)),
        },
        CompilePhase::Compiling { shader } => if reply.confirms() {
            BuildStepView::Done(Ok(shader))
        } else {
            BuildStepView::Issue {
                next: CompilePhase::ReadingLog,
                commands: seq![CommandView::GetShaderInfoLog { shader }],
            }
        },
        CompilePhase::ReadingLog => BuildStepView::Done(Err(reply.text_or(SHADER_LOG_MISSING@))),
    }
}

/// One step of linking a vertex and a fragment shader into a program.
///
/// The program object is created first. Where the surface gives none, the
/// link fails with [`PROGRAM_NOT_CREATED`]. Then the vertex shader and the
/// fragment shader are attached, in this order, the program is linked, and
/// the link status is read. The link succeeds with the program's handle only
/// if the status is reported as set. Otherwise the info log is read, and the
/// link fails with it, or with [`PROGRAM_LOG_MISSING`] where there is none.
pub open spec fn link_step(
    phase: LinkPhase,
    vert_shader: Handle,
    frag_shader: Handle,
    reply: ReplyView,
) -> BuildStepView<LinkPhase> {
    match phase {
        LinkPhase::Start => BuildStepView::Issue {
            next: LinkPhase::Creating,
            commands: seq![CommandView::CreateProgram],
        },
        LinkPhase::Creating => match reply.object() {
            Some(program) => BuildStepView::Issue {
                next: LinkPhase::Linking { program },
                commands: seq![
                    CommandView::AttachShader { program, shader: vert_shader },
                    CommandView::AttachShader { program, shader: frag_shader },
                    CommandView::LinkProgram { program },
                    CommandView::GetProgramParameter { program, pname: LINK_STATUS },
                ],
            },
            None => BuildStepView::Done(Err(PROGRAM_NOT_CREATED@)),
        },
        LinkPhase::Linking { program } => if reply.confirms() {
            BuildStepView::Done(Ok(program))
        } else {
            BuildStepView::Issue {
                next: LinkPhase::ReadingLog,
                commands: seq![CommandView::GetProgramInfoLog { program }],
            }
        },
        LinkPhase::ReadingLog => BuildStepView::Done(Err(reply.text_or(PROGRAM_LOG_MISSING@))),
    }
}

/// Takes the compile of one shader one step further. `reply` is what the
/// surface answered to the last command of the step before; the first step
/// does not read it.
pub fn compile_shader(phase: CompilePhase, shader_type: u32, source: &str, reply: Reply) -> (step:
    BuildStep<CompilePhase>)
    ensures
        step@ == compile_step(phase, shader_type, source@, reply@),
{
    match phase {
        CompilePhase::Start => {
            let commands: Vec<Command> = vec![Command::CreateShader { kind: shader_type }];
            BuildStep::Issue { next: CompilePhase::Creating, commands }
        },
        CompilePhase::Creating => match reply.object() {
            Some(shader) => {
                let commands: Vec<Command> = vec![
                    Command::ShaderSource { shader, source: source.to_owned() },
                    Command::CompileShader { shader },
                    Command::GetShaderParameter { shader, pname: COMPILE_STATUS },
                ];
                BuildStep::Issue { next: CompilePhase::Compiling { shader }, commands }
            },
            None => BuildStep::Done(Err(SHADER_NOT_CREATED.to_owned())),
        },
        CompilePhase::Compiling { shader } => {
            if reply.confirms() {
                BuildStep::Done(Ok(shader))
            } else {
                let commands: Vec<Command> = vec![Command::GetShaderInfoLog { shader }];
                BuildStep::Issue { next: CompilePhase::ReadingLog, commands }
            }
        },
        CompilePhase::ReadingLog => BuildStep::Done(Err(reply.text_or(SHADER_LOG_MISSING))),
    }
}

/// Takes the link of a program one step further. `reply` is what the surface
/// answered to the last command of the step before; the first step does not
/// read it.
pub fn link_program(phase: LinkPhase, vert_shader: Handle, frag_shader: Handle, reply: Reply) -> (step:
    BuildStep<LinkPhase>)
    ensures
        step@ == link_step(phase, vert_shader, frag_shader, reply@),
{
    match phase {
        LinkPhase::Start => {
            let commands: Vec<Command> = vec![Command::CreateProgram];
            BuildStep::Issue { next: LinkPhase::Creating, commands }
        },
        LinkPhase::Creating => match reply.object() {
            Some(program) => {
                let commands: Vec<Command> = vec![
                    Command::AttachShader { program, shader: vert_shader },
                    Command::AttachShader { program, shader: frag_shader },
                    Command::LinkProgram { program },
                    Command::GetProgramParameter { program, pname: LINK_STATUS },
                ];
                BuildStep::Issue { next: LinkPhase::Linking { program }, commands }
            },
            None => BuildStep::Done(Err(PROGRAM_NOT_CREATED.to_owned())),
        },
        LinkPhase::Linking { program } => {
            if reply.confirms() {
                BuildStep::Done(Ok(program))
            } else {
                let commands: Vec<Command> = vec![Command::GetProgramInfoLog { program }];
                BuildStep::Issue { next: LinkPhase::ReadingLog, commands }
            }
        },
        LinkPhase::ReadingLog => BuildStep::Done(Err(reply.text_or(PROGRAM_LOG_MISSING))),
    }
}

} // verus!
