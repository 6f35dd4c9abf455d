//! The resource bundle: a drawing surface together with the program and the
//! vertex layout that draw one quad on it.
//!
//! A bundle is made from what the host found when it looked the surface up.
//! It starts out uninitialized. [`WebGLResources::setup_resources`] builds
//! the program and the layout and, where all of it succeeds, makes the bundle
//! ready. [`WebGLResources::draw`] renders one frame in either state.
//!
//! Setup and draw talk to the surface, which only the host can reach. Both
//! are therefore written as steps: the host calls with the phase it is in and
//! the reply to what it issued last, issues what the step hands back, and
//! calls again, until the step is [`Step::Done`].

use vstd::prelude::*;
use crate::error::{Error, ErrorView};
use crate::geometry::{quad_indices, quad_vertices, GeometryBuffers, COMPONENTS_PER_VERTEX};
use crate::protocol::{
    views, Command, CommandView, Handle, Reply, ReplyView, ShaderStage, ARRAY_BUFFER,
    COLOR_BUFFER_BIT, ELEMENT_ARRAY_BUFFER, FLOAT, FRAGMENT_SHADER, ONE, STATIC_DRAW, TRIANGLES,
    UNSIGNED_SHORT, VERTEX_SHADER, ZERO,
};
use crate::shader::{
    compile_shader, compile_step, link_program, link_step, BuildStep, BuildStepView, CompilePhase,
    LinkPhase, FRAGMENT_SHADER_SOURCE, VERTEX_SHADER_SOURCE,
};

verus! {

/// Kind of drawing context that a bundle needs from its canvas.
pub const CONTEXT_KIND: &'static str = "webgl2";

/// Name of the program input that receives the vertex positions.
pub const POSITION_ATTRIBUTE: &'static str = "position";

/// Number of indices that one frame draws: two triangles.
pub const INDEX_COUNT: i32 = 6;

/// What the host found when it looked for the drawing surface of an element.
#[derive(Clone, Copy, Debug, PartialEq, Eq)]
pub enum SurfaceLookup {
    /// There is no window to look in.
    NoWindow,
    /// The window has no document.
    NoDocument,
    /// No element of the document answers to the identifier.
    NoElement,
    /// The element is no canvas.
    NotCanvas,
    /// The canvas refused the request for a context.
    ContextRefused,
    /// The canvas has no context of the kind asked for.
    NoContext,
    /// What the canvas gave is no context of the required version.
    WrongContext,
    /// The drawing surface.
    Found(Handle),
}

/// What a bundle holds besides its surface: nothing, or a linked program
/// together with the vertex layout that feeds it. There is no state with one
/// of the two alone.
#[derive(Clone, Copy, Debug, PartialEq, Eq)]
pub enum BundleState {
    Uninitialized,
    Ready { program: Handle, layout: Handle },
}

/// How far a setup has come, with the objects that it has built so far.
#[derive(Clone, Copy, Debug, PartialEq, Eq)]
pub enum SetupPhase {
    /// Nothing was issued yet.
    Start,
    /// The vertex shader is being compiled.
    VertexShader { compile: CompilePhase },
    /// The fragment shader is being compiled.
    FragmentShader { vertex: Handle, compile: CompilePhase },
    /// The program is being linked.
    Program { vertex: Handle, fragment: Handle, link: LinkPhase },
    /// The vertex buffer was asked for.
    VertexBuffer { program: Handle },
    /// The index buffer was asked for.
    IndexBuffer { program: Handle },
    /// The vertex layout object was asked for.
    Layout { program: Handle },
    /// The slot of the position input was asked for.
    Attribute { program: Handle, layout: Handle },
    /// The slot was enabled and described. What is left is to keep the
    /// program and the layout.
    Finish { program: Handle, layout: Handle },
}

/// How far a draw has come.
#[derive(Clone, Copy, Debug, PartialEq, Eq)]
pub enum DrawPhase {
    /// Nothing was issued yet.
    Start,
    /// The frame was issued and the error state asked for.
    Checking,
}

/// What setup or draw asks for next.
#[derive(Debug, PartialEq, Eq)]
pub enum Step<P> {
    /// Issue the commands in order, then call again in phase `next` with the
    /// reply to the last of them.
    Issue { next: P, commands: Vec<Command> },
    /// The operation is over, with this result.
    Done(Result<(), Error>),
}

/// What a [`Step`] is as a mathematical value.
#[verifier::ext_equal]
pub enum StepView<P> {
    Issue { next: P, commands: Seq<CommandView> },
    Done(Result<(), ErrorView>),
}

impl<P> View for Step<P> {
    type V = StepView<P>;

    open spec fn view(&self) -> StepView<P> {
        match *self {
            Step::Issue { next, commands } => StepView::Issue { next, commands: views(commands@) },
            Step::Done(Ok(())) => StepView::Done(Ok(())),
            Step::Done(Err(error)) => StepView::Done(Err(error@)),
        }
    }
}

/// The surface that a lookup ended with, or why there is none. Without a
/// window, a document or a matching element the surface is not found. An
/// element that is no canvas, or whose canvas gives no context of the
/// required version, has no context available.
pub open spec fn resolve(lookup: SurfaceLookup) -> Result<Handle, ErrorView> {
    match lookup {
        SurfaceLookup::Found(surface) => Ok(surface),
        SurfaceLookup::NoWindow | SurfaceLookup::NoDocument | SurfaceLookup::NoElement => Err(
            ErrorView::SurfaceNotFound,
        ),
        SurfaceLookup::NotCanvas
        | SurfaceLookup::ContextRefused
        | SurfaceLookup::NoContext
        | SurfaceLookup::WrongContext => Err(ErrorView::ContextUnavailable),
    }
}

/// The uploads of the vertex buffer `buffer`, followed by the request for
/// the index buffer.
pub open spec fn vertex_upload(buffer: Handle) -> Seq<CommandView> {
    seq![
        CommandView::BindBuffer { target: ARRAY_BUFFER, buffer },
        CommandView::BufferDataFloat {
            target: ARRAY_BUFFER,
            floats: quad_vertices(),
            usage: STATIC_DRAW,
        },
        CommandView::CreateBuffer,
    ]
}

/// The uploads of the index buffer `buffer`, followed by the request for the
/// vertex layout object.
pub open spec fn index_upload(buffer: Handle) -> Seq<CommandView> {
    seq![
        CommandView::BindBuffer { target: ELEMENT_ARRAY_BUFFER, buffer },
        CommandView::BufferDataShort {
            target: ELEMENT_ARRAY_BUFFER,
            shorts: quad_indices(),
            usage: STATIC_DRAW,
        },
        CommandView::CreateVertexArray,
    ]
}

/// The commands that enable attribute slot `index` and describe it as three
/// single-precision components per vertex, not normalized, tightly packed
/// from the start of the vertex buffer.
pub open spec fn attribute_layout(index: u32) -> Seq<CommandView> {
    seq![
        CommandView::EnableVertexAttribArray { index },
        CommandView::VertexAttribPointer {
            index,
            size: COMPONENTS_PER_VERTEX as i32,
            kind: FLOAT,
            normalized: false,
            stride: 0,
            offset: 0,
        },
    ]
}

/// One step of a setup.
///
/// The vertex shader is compiled, then the fragment shader, then the two are
/// linked. A failure of a compile or of the link ends the setup with the
/// matching error. The linked program is made current. The quad's vertices
/// and then its indices are uploaded into a buffer each; where the surface
/// gives no buffer the setup ends with [`Error::BufferUnavailable`]. A
/// vertex layout object is created and made current; where the surface gives
/// none the setup ends with [`Error::LayoutUnavailable`]. The slot of the
/// input [`POSITION_ATTRIBUTE`] is looked up; where the program has none the
/// setup ends with [`Error::AttributeNotFound`]. The slot is enabled and
/// described, and with that the setup has succeeded.
pub open spec fn setup_step(phase: SetupPhase, reply: ReplyView) -> StepView<SetupPhase> {
    match phase {
        SetupPhase::Start => StepView::Issue {
            next: SetupPhase::VertexShader { compile: CompilePhase::Creating },
            commands: seq![CommandView::CreateShader { kind: VERTEX_SHADER }],
        },
        SetupPhase::VertexShader { compile } => match compile_step(
            compile,
            VERTEX_SHADER,
            VERTEX_SHADER_SOURCE@,
            reply,
        ) {
            BuildStepView::Issue { next, commands } => StepView::Issue {
                next: SetupPhase::VertexShader { compile: next },
                commands,
            },
            BuildStepView::Done(Ok(vertex)) => StepView::Issue {
                next: SetupPhase::FragmentShader { vertex, compile: CompilePhase::Creating },
                commands: seq![CommandView::CreateShader { kind: FRAGMENT_SHADER }],
            },
            BuildStepView::Done(Err(log)) => StepView::Done(
                Err(ErrorView::ShaderCompileError { stage: ShaderStage::Vertex, log }),
            ),
        },
        SetupPhase::FragmentShader { vertex, compile } => match compile_step(
            compile,
            FRAGMENT_SHADER,
            FRAGMENT_SHADER_SOURCE@,
            reply,
        ) {
            BuildStepView::Issue { next, commands } => StepView::Issue {
                next: SetupPhase::FragmentShader { vertex, compile: next },
                commands,
            },
            BuildStepView::Done(Ok(fragment)) => StepView::Issue {
                next: SetupPhase::Program { vertex, fragment, link: LinkPhase::Creating },
                commands: seq![CommandView::CreateProgram],
            },
            BuildStepView::Done(Err(log)) => StepView::Done(
                Err(ErrorView::ShaderCompileError { stage: ShaderStage::Fragment, log }),
            ),
        },
        SetupPhase::Program { vertex, fragment, link } => match link_step(
            link,
            vertex,
            fragment,
            reply,
        ) {
            BuildStepView::Issue { next, commands } => StepView::Issue {
                next: SetupPhase::Program { vertex, fragment, link: next },
                commands,
            },
            BuildStepView::Done(Ok(program)) => StepView::Issue {
                next: SetupPhase::VertexBuffer { program },
                commands: seq![CommandView::UseProgram { program }, CommandView::CreateBuffer],
            },
            BuildStepView::Done(Err(log)) => StepView::Done(
                Err(ErrorView::ProgramLinkError { log }),
            ),
        },
        SetupPhase::VertexBuffer { program } => match reply.object() {
            Some(buffer) => StepView::Issue {
                next: SetupPhase::IndexBuffer { program },
                commands: vertex_upload(buffer),
            },
            None => StepView::Done(Err(ErrorView::BufferUnavailable)),
        },
        SetupPhase::IndexBuffer { program } => match reply.object() {
            Some(buffer) => StepView::Issue {
                next: SetupPhase::Layout { program },
                commands: index_upload(buffer),
            },
            None => StepView::Done(Err(ErrorView::BufferUnavailable)),
        },
        SetupPhase::Layout { program } => match reply.object() {
            Some(layout) => StepView::Issue {
                next: SetupPhase::Attribute { program, layout },
                commands: seq![
                    CommandView::BindVertexArray { array: layout },
                    CommandView::GetAttribLocation { program, name: POSITION_ATTRIBUTE@ },
                ],
            },
            None => StepView::Done(Err(ErrorView::LayoutUnavailable)),
        },
        SetupPhase::Attribute { program, layout } => match reply.slot() {
            Some(index) => StepView::Issue {
                next: SetupPhase::Finish { program, layout },
                commands: attribute_layout(index),
            },
            None => StepView::Done(Err(ErrorView::AttributeNotFound(POSITION_ATTRIBUTE@))),
        },
        SetupPhase::Finish { program, layout } => StepView::Done(Ok(())),
    }
}

/// What a bundle in state `state` holds after a setup step in `phase`: the
/// last step of a setup puts the new program and layout in place, together;
/// no other step changes anything.
pub open spec fn setup_state(state: BundleState, phase: SetupPhase) -> BundleState {
    match phase {
        SetupPhase::Finish { program, layout } => BundleState::Ready { program, layout },
        _ => state,
    }
}

/// The commands of one frame. The surface is cleared to opaque black. A
/// ready bundle then makes its program and its layout current and draws
/// [`INDEX_COUNT`] indices of 16 bits as triangles; a bundle that is not
/// ready draws nothing. The error state is asked for last.
pub open spec fn frame(state: BundleState) -> Seq<CommandView> {
    let clear = seq![
        CommandView::ClearColor { red: ZERO, green: ZERO, blue: ZERO, alpha: ONE },
        CommandView::Clear { mask: COLOR_BUFFER_BIT },
    ];
    let check = seq![CommandView::GetError];
    match state {
        BundleState::Uninitialized => clear + check,
        BundleState::Ready { program, layout } => clear + seq![
            CommandView::UseProgram { program },
            CommandView::BindVertexArray { array: layout },
            CommandView::DrawElements {
                mode: TRIANGLES,
                count: INDEX_COUNT,
                kind: UNSIGNED_SHORT,
                offset: 0,
            },
        ] + check,
    }
}

/// One step of a draw: the frame is issued first. The draw then fails with
/// [`Error::GraphicsError`] if the surface reports a pending error, and
/// succeeds otherwise.
pub open spec fn draw_step(state: BundleState, phase: DrawPhase, reply: ReplyView) -> StepView<
    DrawPhase,
> {
    match phase {
        DrawPhase::Start => StepView::Issue { next: DrawPhase::Checking, commands: frame(state) },
        DrawPhase::Checking => match reply.pending_error() {
            Some(code) => StepView::Done(Err(ErrorView::GraphicsError { code })),
            None => StepView::Done(Ok(())),
        },
    }
}

/// A drawing surface with the objects that draw one quad on it.
#[derive(Debug, PartialEq, Eq)]
pub struct WebGLResources {
    surface: Handle,
    state: BundleState,
}

impl WebGLResources {
    /// The drawing surface that the bundle was made for.
    pub closed spec fn spec_surface(&self) -> Handle {
        self.surface
    }

    /// What the bundle holds.
    pub closed spec fn spec_state(&self) -> BundleState {
        self.state
    }

    /// Makes a bundle for the surface that `lookup` found. The bundle holds
    /// no program and no layout yet. Fails where the lookup found no surface.
    pub fn new(lookup: SurfaceLookup) -> (bundle: Result<WebGLResources, Error>)
        ensures
            match bundle {
                Ok(bundle) => resolve(lookup) == Ok::<Handle, ErrorView>(bundle.surface())
                    && bundle.state() == BundleState::Uninitialized,
                Err(error) => resolve(lookup) == Err::<Handle, ErrorView>(error@),
            },
    {
        match lookup {
            SurfaceLookup::Found(surface) => Ok(
                WebGLResources { surface, state: BundleState::Uninitialized },
            ),
            SurfaceLookup::NoWindow => Err(Error::SurfaceNotFound),
            SurfaceLookup::NoDocument => Err(Error::SurfaceNotFound),
            SurfaceLookup::NoElement => Err(Error::SurfaceNotFound),
            SurfaceLookup::NotCanvas => Err(Error::ContextUnavailable),
            SurfaceLookup::ContextRefused => Err(Error::ContextUnavailable),
            SurfaceLookup::NoContext => Err(Error::ContextUnavailable),
            SurfaceLookup::WrongContext => Err(Error::ContextUnavailable),
        }
    }

    /// Takes a setup one step further. `reply` is what the surface answered
    /// to the last command of the step before; the first step does not read
    /// it. The bundle changes with the last step only, which makes it ready
    /// with the program and the layout that this setup built. A setup that
    /// fails leaves the bundle as it was.
    pub fn setup_resources(&mut self, phase: SetupPhase, reply: Reply) -> (step: Step<SetupPhase>)
        ensures
            step@ == setup_step(phase, reply@),
            final(self).state() == setup_state(old(self).state(), phase),
            final(self).surface() == old(self).surface(),
    {
        match phase {
            SetupPhase::Start => {
                let commands: Vec<Command> = vec![Command::CreateShader { kind: VERTEX_SHADER }];
                Step::Issue {
                    next: SetupPhase::VertexShader { compile: CompilePhase::Creating },
                    commands,
                }
            },
            SetupPhase::VertexShader { compile } => {
                match compile_shader(compile, VERTEX_SHADER, VERTEX_SHADER_SOURCE, reply) {
                    BuildStep::Issue { next, commands } => Step::Issue {
                        next: SetupPhase::VertexShader { compile: next },
                        commands,
                    },
                    BuildStep::Done(Ok(vertex)) => {
                        let commands: Vec<Command> = vec![
                            Command::CreateShader { kind: FRAGMENT_SHADER },
                        ];
                        Step::Issue {
                            next: SetupPhase::FragmentShader {
                                vertex,
                                compile: CompilePhase::Creating,
                            },
                            commands,
                        }
                    },
                    BuildStep::Done(Err(log)) => Step::Done(
                        Err(Error::ShaderCompileError { stage: ShaderStage::Vertex, log }),
                    ),
                }
            },
            SetupPhase::FragmentShader { vertex, compile } => {
                match compile_shader(compile, FRAGMENT_SHADER, FRAGMENT_SHADER_SOURCE, reply) {
                    BuildStep::Issue { next, commands } => Step::Issue {
                        next: SetupPhase::FragmentShader { vertex, compile: next },
                        commands,
                    },
                    BuildStep::Done(Ok(fragment)) => {
                        let commands: Vec<Command> = vec![Command::CreateProgram];
                        Step::Issue {
                            next: SetupPhase::Program {
                                vertex,
                                fragment,
                                link: LinkPhase::Creating,
                            },
                            commands,
                        }
                    },
                    BuildStep::Done(Err(log)) => Step::Done(
                        Err(Error::ShaderCompileError { stage: ShaderStage::Fragment, log }),
                    ),
                }
            },
            SetupPhase::Program { vertex, fragment, link } => {
                match link_program(link, vertex, fragment, reply) {
                    BuildStep::Issue { next, commands } => Step::Issue {
                        next: SetupPhase::Program { vertex, fragment, link: next },
                        commands,
                    },
                    BuildStep::Done(Ok(program)) => {
                        let commands: Vec<Command> = vec![
                            Command::UseProgram { program },
                            Command::CreateBuffer,
                        ];
                        Step::Issue { next: SetupPhase::VertexBuffer { program }, commands }
                    },
                    BuildStep::Done(Err(log)) => Step::Done(Err(Error::ProgramLinkError { log })),
                }
            },
            SetupPhase::VertexBuffer { program } => match reply.object() {
                Some(buffer) => {
                    let commands: Vec<Command> = vec![
                        Command::BindBuffer { target: ARRAY_BUFFER, buffer },
                        Command::BufferDataFloat {
                            target: ARRAY_BUFFER,
                            floats: GeometryBuffers::quad().vertices,
                            usage: STATIC_DRAW,
                        },
                        Command::CreateBuffer,
                    ];
                    Step::Issue { next: SetupPhase::IndexBuffer { program }, commands }
                },
                None => Step::Done(Err(Error::BufferUnavailable)),
            },
            SetupPhase::IndexBuffer { program } => match reply.object() {
                Some(buffer) => {
                    let commands: Vec<Command> = vec![
                        Command::BindBuffer { target: ELEMENT_ARRAY_BUFFER, buffer },
                        Command::BufferDataShort {
                            target: ELEMENT_ARRAY_BUFFER,
                            shorts: GeometryBuffers::quad().indices,
                            usage: STATIC_DRAW,
                        },
                        Command::CreateVertexArray,
                    ];
                    Step::Issue { next: SetupPhase::Layout { program }, commands }
                },
                None => Step::Done(Err(Error::BufferUnavailable)),
            },
            SetupPhase::Layout { program } => match reply.object() {
                Some(layout) => {
                    let commands: Vec<Command> = vec![
                        Command::BindVertexArray { array: layout },
                        Command::GetAttribLocation {
                            program,
                            name: POSITION_ATTRIBUTE.to_owned(),
                        },
                    ];
                    Step::Issue { next: SetupPhase::Attribute { program, layout }, commands }
                },
                None => Step::Done(Err(Error::LayoutUnavailable)),
            },
            SetupPhase::Attribute { program, layout } => match reply.slot() {
                Some(index) => {
                    let commands: Vec<Command> = vec![
                        Command::EnableVertexAttribArray { index },
                        Command::VertexAttribPointer {
                            index,
                            size: COMPONENTS_PER_VERTEX as i32,
                            kind: FLOAT,
                            normalized: false,
                            stride: 0,
                            offset: 0,
                        },
                    ];
                    Step::Issue { next: SetupPhase::Finish { program, layout }, commands }
                },
                None => Step::Done(
                    Err(Error::AttributeNotFound(POSITION_ATTRIBUTE.to_owned())),
                ),
            },
            SetupPhase::Finish { program, layout } => {
                self.state = BundleState::Ready { program, layout };
                Step::Done(Ok(()))
            },
        }
    }

    /// Takes a draw one step further. `reply` is what the surface answered
    /// to the last command of the step before; the first step does not read
    /// it. A draw never changes the bundle.
    pub fn draw(&self, phase: DrawPhase, reply: Reply) -> (step: Step<DrawPhase>)
        ensures
            step@ == draw_step(self.state(), phase, reply@),
    {
        match phase {
            DrawPhase::Start => {
                let mut commands: Vec<Command> = vec![
                    Command::ClearColor { red: ZERO, green: ZERO, blue: ZERO, alpha: ONE },
                    Command::Clear { mask: COLOR_BUFFER_BIT },
                ];
                match self.state {
                    BundleState::Ready { program, layout } => {
                        commands.push(Command::UseProgram { program });
                        commands.push(Command::BindVertexArray { array: layout });
                        commands.push(
                            Command::DrawElements {
                                mode: TRIANGLES,
                                count: INDEX_COUNT,
                                kind: UNSIGNED_SHORT,
                                offset: 0,
                            },
                        );
                    },
                    BundleState::Uninitialized => {},
                }
                commands.push(Command::GetError);
                assert(views(commands@) =~= frame(self.state));
                Step::Issue { next: DrawPhase::Checking, commands }
            },
            DrawPhase::Checking => match reply.pending_error() {
                Some(code) => Step::Done(Err(Error::GraphicsError { code })),
                None => Step::Done(Ok(())),
            },
        }
    }

    /// The drawing surface that the bundle was made for.
    #[verifier::when_used_as_spec(spec_surface)]
    pub fn surface(&self) -> (surface: Handle)
        ensures
            surface == self.spec_surface(),
    {
        self.surface
    }

    /// What the bundle holds.
    #[verifier::when_used_as_spec(spec_state)]
    pub fn state(&self) -> (state: BundleState)
        ensures
            state == self.spec_state(),
    {
        self.state
    }
}

} // verus!
