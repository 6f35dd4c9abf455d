//! The ways in which building or using a resource bundle can fail.

use vstd::prelude::*;
use crate::protocol::ShaderStage;

verus! {

/// A failure of the operation that returned it. None is retried and none is
/// recovered from inside the library: the caller decides what to do with it.
#[derive(Debug, PartialEq, Eq)]
pub enum Error {
    /// No element of the document answers to the identifier.
    SurfaceNotFound,
    /// The element cannot give a drawing context of the required version.
    ContextUnavailable,
    /// A stage did not compile. `log` is what the compiler said, or a fixed
    /// text where it said nothing.
    ShaderCompileError { stage: ShaderStage, log: String },
    /// The stages did not link. `log` is what the linker said, or a fixed
    /// text where it said nothing.
    ProgramLinkError { log: String },
    /// The surface gave no buffer for the vertices or for the indices.
    BufferUnavailable,
    /// The surface gave no vertex layout object.
    LayoutUnavailable,
    /// The linked program has no active input of this name.
    AttributeNotFound(String),
    /// The surface reported this error state after a draw.
    GraphicsError { code: u32 },
}

/// What an [`Error`] is as a mathematical value.
#[verifier::ext_equal]
pub enum ErrorView {
    SurfaceNotFound,
    ContextUnavailable,
    ShaderCompileError { stage: ShaderStage, log: Seq<char> },
    ProgramLinkError { log: Seq<char> },
    BufferUnavailable,
    LayoutUnavailable,
    AttributeNotFound(Seq<char>),
    GraphicsError { code: u32 },
}

impl View for Error {
    type V = ErrorView;

    open spec fn view(&self) -> ErrorView {
        match *self {
            Error::SurfaceNotFound => ErrorView::SurfaceNotFound,
            Error::ContextUnavailable => ErrorView::ContextUnavailable,
            Error::ShaderCompileError { stage, log } => ErrorView::ShaderCompileError {
                stage,
                log: log@,
            },
            Error::ProgramLinkError { log } => ErrorView::ProgramLinkError { log: log@ },
            Error::BufferUnavailable => ErrorView::BufferUnavailable,
            Error::LayoutUnavailable => ErrorView::LayoutUnavailable,
            Error::AttributeNotFound(name) => ErrorView::AttributeNotFound(name@),
            Error::GraphicsError { code } => ErrorView::GraphicsError { code },
        }
    }
}

} // verus!
