//! The vocabulary exchanged with a drawing surface.
//!
//! The library never touches a graphics context itself. It decides which
//! [`Command`]s a host has to issue, in which order, and it reads the
//! [`Reply`] that the surface gave to the last of them. Objects that live on
//! the surface (shaders, programs, buffers, vertex arrays) are referred to by
//! the [`Handle`] under which the host keeps them.

use vstd::prelude::*;

verus! {

/// Error state of a surface on which no error is pending.
pub const NO_ERROR: u32 = 0;

/// Primitive mode: every three indices form one triangle.
pub const TRIANGLES: u32 = 0x0004;

/// Mask bit that selects the colour buffer in a clear.
pub const COLOR_BUFFER_BIT: u32 = 0x4000;

/// Element type: unsigned 16-bit integer.
pub const UNSIGNED_SHORT: u32 = 0x1403;

/// Element type: 32-bit floating point.
pub const FLOAT: u32 = 0x1406;

/// Buffer target that supplies vertex attributes.
pub const ARRAY_BUFFER: u32 = 0x8892;

/// Buffer target that supplies the indices of an indexed draw.
pub const ELEMENT_ARRAY_BUFFER: u32 = 0x8893;

/// Usage hint: the data is uploaded once and drawn from many times.
pub const STATIC_DRAW: u32 = 0x88E4;

/// Shader kind of the fragment stage.
pub const FRAGMENT_SHADER: u32 = 0x8B30;

/// Shader kind of the vertex stage.
pub const VERTEX_SHADER: u32 = 0x8B31;

/// Shader parameter that tells whether the last compile succeeded.
pub const COMPILE_STATUS: u32 = 0x8B81;

/// Program parameter that tells whether the last link succeeded.
pub const LINK_STATUS: u32 = 0x8B82;

/// Bit pattern of the single-precision number `0.0`.
pub const ZERO: u32 = 0x0000_0000;

/// Bit pattern of the single-precision number `0.5`.
pub const HALF: u32 = 0x3F00_0000;

/// Bit pattern of the single-precision number `-0.5`.
pub const MINUS_HALF: u32 = 0xBF00_0000;

/// Bit pattern of the single-precision number `1.0`.
pub const ONE: u32 = 0x3F80_0000;

/// The name under which the host keeps an object of the surface.
#[derive(Clone, Copy, Debug, PartialEq, Eq, Hash)]
pub struct Handle(pub u32);

/// The two programmable stages that a program is linked from.
#[derive(Clone, Copy, Debug, PartialEq, Eq, Hash)]
pub enum ShaderStage {
    Vertex,
    Fragment,
}

/// One call on the drawing surface, with every argument spelled out.
///
/// Single-precision numbers travel as their bit patterns: the host turns
/// them back into numbers before it makes the call.
#[derive(Debug, PartialEq, Eq)]
pub enum Command {
    /// Create a shader object of the given kind. Answered by its handle.
    CreateShader { kind: u32 },
    /// Replace the source text of a shader object.
    ShaderSource { shader: Handle, source: String },
    /// Compile the source text of a shader object.
    CompileShader { shader: Handle },
    /// Ask for a parameter of a shader object. Answered by a flag.
    GetShaderParameter { shader: Handle, pname: u32 },
    /// Ask for the diagnostics of the last compile. Answered by a text.
    GetShaderInfoLog { shader: Handle },
    /// Create a program object. Answered by its handle.
    CreateProgram,
    /// Attach a shader object to a program object.
    AttachShader { program: Handle, shader: Handle },
    /// Link the attached stages of a program object.
    LinkProgram { program: Handle },
    /// Ask for a parameter of a program object. Answered by a flag.
    GetProgramParameter { program: Handle, pname: u32 },
    /// Ask for the diagnostics of the last link. Answered by a text.
    GetProgramInfoLog { program: Handle },
    /// Make a program object current.
    UseProgram { program: Handle },
    /// Create a buffer object. Answered by its handle.
    CreateBuffer,
    /// Bind a buffer object to a target.
    BindBuffer { target: u32, buffer: Handle },
    /// Fill the buffer bound to a target with single-precision numbers.
    BufferDataFloat { target: u32, floats: Vec<u32>, usage: u32 },
    /// Fill the buffer bound to a target with unsigned 16-bit integers.
    BufferDataShort { target: u32, shorts: Vec<u16>, usage: u32 },
    /// Create a vertex array object. Answered by its handle.
    CreateVertexArray,
    /// Make a vertex array object current.
    BindVertexArray { array: Handle },
    /// Ask for the slot of a named input of a program. Answered by a location.
    GetAttribLocation { program: Handle, name: String },
    /// Enable an attribute slot of the current vertex array.
    EnableVertexAttribArray { index: u32 },
    /// Describe how an attribute slot reads the buffer bound to `ARRAY_BUFFER`.
    VertexAttribPointer { index: u32, size: i32, kind: u32, normalized: bool, stride: i32, offset: i32 },
    /// Set the colour that a clear writes.
    ClearColor { red: u32, green: u32, blue: u32, alpha: u32 },
    /// Clear the buffers selected by the mask.
    Clear { mask: u32 },
    /// Draw `count` indices from the bound element buffer.
    DrawElements { mode: u32, count: i32, kind: u32, offset: i32 },
    /// Ask for the error state of the surface. Answered by a code.
    GetError,
}

/// What a [`Command`] is as a mathematical value.
#[verifier::ext_equal]
pub enum CommandView {
    CreateShader { kind: u32 },
    ShaderSource { shader: Handle, source: Seq<char> },
    CompileShader { shader: Handle },
    GetShaderParameter { shader: Handle, pname: u32 },
    GetShaderInfoLog { shader: Handle },
    CreateProgram,
    AttachShader { program: Handle, shader: Handle },
    LinkProgram { program: Handle },
    GetProgramParameter { program: Handle, pname: u32 },
    GetProgramInfoLog { program: Handle },
    UseProgram { program: Handle },
    CreateBuffer,
    BindBuffer { target: u32, buffer: Handle },
    BufferDataFloat { target: u32, floats: Seq<u32>, usage: u32 },
    BufferDataShort { target: u32, shorts: Seq<u16>, usage: u32 },
    CreateVertexArray,
    BindVertexArray { array: Handle },
    GetAttribLocation { program: Handle, name: Seq<char> },
    EnableVertexAttribArray { index: u32 },
    VertexAttribPointer { index: u32, size: i32, kind: u32, normalized: bool, stride: i32, offset: i32 },
    ClearColor { red: u32, green: u32, blue: u32, alpha: u32 },
    Clear { mask: u32 },
    DrawElements { mode: u32, count: i32, kind: u32, offset: i32 },
    GetError,
}

impl View for Command {
    type V = CommandView;

    open spec fn view(&self) -> CommandView {
        match *self {
            Command::CreateShader { kind } => CommandView::CreateShader { kind },
            Command::ShaderSource { shader, source } => CommandView::ShaderSource {
                shader,
                source: source@,
            },
            Command::CompileShader { shader } => CommandView::CompileShader { shader },
            Command::GetShaderParameter { shader, pname } => CommandView::GetShaderParameter {
                shader,
                pname,
            },
            Command::GetShaderInfoLog { shader } => CommandView::GetShaderInfoLog { shader },
            Command::CreateProgram => CommandView::CreateProgram,
            Command::AttachShader { program, shader } => CommandView::AttachShader {
                program,
                shader,
            },
            Command::LinkProgram { program } => CommandView::LinkProgram { program },
            Command::GetProgramParameter { program, pname } => CommandView::GetProgramParameter {
                program,
                pname,
            },
            Command::GetProgramInfoLog { program } => CommandView::GetProgramInfoLog { program },
            Command::UseProgram { program } => CommandView::UseProgram { program },
            Command::CreateBuffer => CommandView::CreateBuffer,
            Command::BindBuffer { target, buffer } => CommandView::BindBuffer { target, buffer },
            Command::BufferDataFloat { target, floats, usage } => CommandView::BufferDataFloat {
                target,
                floats: floats@,
                usage,
            },
            Command::BufferDataShort { target, shorts, usage } => CommandView::BufferDataShort {
                target,
                shorts: shorts@,
                usage,
            },
            Command::CreateVertexArray => CommandView::CreateVertexArray,
            Command::BindVertexArray { array } => CommandView::BindVertexArray { array },
            Command::GetAttribLocation { program, name } => CommandView::GetAttribLocation {
                program,
                name: name@,
            },
            Command::EnableVertexAttribArray { index } => CommandView::EnableVertexAttribArray {
                index,
            },
            Command::VertexAttribPointer {
                index,
                size,
                kind,
                normalized,
                stride,
                offset,
            } => CommandView::VertexAttribPointer { index, size, kind, normalized, stride, offset },
            Command::ClearColor { red, green, blue, alpha } => CommandView::ClearColor {
                red,
                green,
                blue,
                alpha,
            },
            Command::Clear { mask } => CommandView::Clear { mask },
            Command::DrawElements { mode, count, kind, offset } => CommandView::DrawElements {
                mode,
                count,
                kind,
                offset,
            },
            Command::GetError => CommandView::GetError,
        }
    }
}

/// The commands of a batch as mathematical values, in the order of issue.
pub open spec fn views(commands: Seq<Command>) -> Seq<CommandView> {
    Seq::new(commands.len(), |i: int| commands[i]@)
}

/// What the surface answered to the last command of a batch.
#[derive(Debug, PartialEq, Eq)]
pub enum Reply {
    /// The command answers nothing, or the surface answered with no value.
    Nothing,
    /// A newly created object.
    Object(Handle),
    /// A status parameter.
    Flag(bool),
    /// An info log.
    Text(String),
    /// The slot of a program input; negative where the program has none.
    Location(i32),
    /// An error state.
    Code(u32),
}

/// What a [`Reply`] is as a mathematical value.
#[verifier::ext_equal]
pub enum ReplyView {
    Nothing,
    Object(Handle),
    Flag(bool),
    Text(Seq<char>),
    Location(i32),
    Code(u32),
}

impl ReplyView {
    /// The object that was created, if the reply names one.
    pub open spec fn object(self) -> Option<Handle> {
        match self {
            ReplyView::Object(handle) => Some(handle),
            _ => None,
        }
    }

    /// Whether the reply reports a status as set. A reply that is no flag
    /// reports nothing as set.
    pub open spec fn confirms(self) -> bool {
        self == ReplyView::Flag(true)
    }

    /// The info log, or `fallback` where the reply holds no text.
    pub open spec fn text_or(self, fallback: Seq<char>) -> Seq<char> {
        match self {
            ReplyView::Text(text) => text,
            _ => fallback,
        }
    }

    /// The attribute slot, if the reply holds a location that is not negative.
    pub open spec fn slot(self) -> Option<u32> {
        match self {
            ReplyView::Location(location) if location >= 0 => Some(location as u32),
            _ => None,
        }
    }

    /// The pending error, if the reply holds a code other than [`NO_ERROR`].
    pub open spec fn pending_error(self) -> Option<u32> {
        match self {
            ReplyView::Code(code) if code != NO_ERROR => Some(code),
            _ => None,
        }
    }
}

impl View for Reply {
    type V = ReplyView;

    open spec fn view(&self) -> ReplyView {
        match *self {
            Reply::Nothing => ReplyView::Nothing,
            Reply::Object(handle) => ReplyView::Object(handle),
            Reply::Flag(flag) => ReplyView::Flag(flag),
            Reply::Text(text) => ReplyView::Text(text@),
            Reply::Location(location) => ReplyView::Location(location),
            Reply::Code(code) => ReplyView::Code(code),
        }
    }
}

impl Reply {
    /// The object that was created, if the reply names one.
    pub fn object(&self) -> (handle: Option<Handle>)
        ensures
            handle == self@.object(),
    {
        match self {
            Reply::Object(handle) => Some(*handle),
            _ => None,
        }
    }

    /// Whether the reply reports a status as set.
    pub fn confirms(&self) -> (set: bool)
        ensures
            set == self@.confirms(),
    {
        match self {
            Reply::Flag(flag) => *flag,
            _ => false,
        }
    }

    /// The info log, or `fallback` where the reply holds no text.
    pub fn text_or(self, fallback: &str) -> (text: String)
        ensures
            text@ == self@.text_or(fallback@),
    {
        match self {
            Reply::Text(text) => text,
            _ => fallback.to_owned(),
        }
    }

    /// The attribute slot, if the reply holds a location that is not negative.
    pub fn slot(&self) -> (slot: Option<u32>)
        ensures
            slot == self@.slot(),
    {
        match self {
            Reply::Location(location) => {
                if *location >= 0 {
                    Some(*location as u32)
                } else {
                    None
                }
            },
            _ => None,
        }
    }

    /// The pending error, if the reply holds a code other than [`NO_ERROR`].
    pub fn pending_error(&self) -> (code: Option<u32>)
        ensures
            code == self@.pending_error(),
    {
        match self {
            Reply::Code(code) => {
                if *code != NO_ERROR {
                    Some(*code)
                } else {
                    None
                }
            },
            _ => None,
        }
    }
}

} // verus!
